# cargo_actions

`cargo actions` manages GitHub Actions workflow templates: it finds them in
git repositories, on disk or on a template server, asks the questions a
template declares, renders the template with Handlebars and writes the
workflow into `.github/workflows`. It also keeps a list of favourite
templates and uploads templates to the server.

Layout:

- `src/` — the library, verified with Verus: repository addresses
  (`git_url`), text and path arithmetic (`text`, `paths`), JSON text for
  template data (`json`), decimal numbers (`numbers`), favourite
  identifiers (`digest`), templates and their prompts (`templates`,
  `config`), favourites (`favorites`), server data and replies (`graphql`,
  `upload`, `token`) and the command-line decisions (`cli`,
  `path_configs`).
- `tests/` — tests of the library on concrete values.
- `app/` — the command-line program: argument parsing, terminal prompts,
  git clones, file access, HTTP and the login server.

Paths are handled as on Unix: the library joins them, and reads a path's
parent and file name, by Unix path rules (`/` separates the components and
a component that starts with `/` replaces the path before it).
