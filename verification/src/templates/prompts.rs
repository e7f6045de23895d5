//! The prompts of a workflow template and the template data that the
//! user's answers to them make.

use vstd::prelude::*;
use crate::json::{json_array, json_array_of, json_object_last, json_object_last_of, json_string, json_string_of};
use crate::text::owned;

verus! {

/// What every prompt has: the text shown and the template variable set.
#[derive(Debug, Clone)]
pub struct CommonFields {
    pub prompt: String,
    pub field: String,
}

/// A text prompt, with an optional default answer.
#[derive(Debug, Clone)]
pub struct Input {
    pub common: CommonFields,
    pub default: Option<String>,
}

/// A yes/no prompt, with an optional default answer.
#[derive(Debug, Clone)]
pub struct Confirm {
    pub common: CommonFields,
    pub default: Option<bool>,
}

/// A choice: the label shown and the value (JSON text) it stands for.
#[derive(Debug, Clone)]
pub struct ItemOption {
    pub label: String,
    pub value: String,
}

/// A prompt that picks one option, with an optional default position.
#[derive(Debug, Clone)]
pub struct Select {
    pub common: CommonFields,
    pub default: Option<usize>,
    pub options: Vec<ItemOption>,
}

/// A prompt that picks any number of options, with optional default
/// positions.
#[derive(Debug, Clone)]
pub struct MultiSelect {
    pub common: CommonFields,
    pub default: Option<Vec<usize>>,
    pub options: Vec<ItemOption>,
}

/// A prompt of a template.
#[derive(Debug, Clone)]
pub enum Prompt {
    Confirm(Confirm),
    Input(Input),
    MultiSelect(MultiSelect),
    Select(Select),
}

/// The prompts of a template, in the order they are asked.
#[derive(Debug, Clone)]
pub struct Prompts(pub Vec<Prompt>);

impl ItemOption {
    /// What the option displays as: its label.
    pub fn to_string(&self) -> (r: String)
        ensures
            r@ == self.label@,
    {
        owned(self.label.as_str())
    }
}

/// The JSON text `true` or `false`.
pub open spec fn json_bool(b: bool) -> Seq<char> {
    if b {
        "true"@
    } else {
        "false"@
    }
}

impl Input {
    /// The template value of the text `typed`: a JSON string.
    pub fn answer_value(&self, typed: &str) -> (r: String)
        ensures
            r@ == json_string(typed@),
    {
        json_string_of(typed)
    }
}

impl Confirm {
    /// The template value of a yes/no answer: a JSON boolean.
    pub fn answer_value(&self, yes: bool) -> (r: String)
        ensures
            r@ == json_bool(yes),
    {
        if yes {
            owned("true")
        } else {
            owned("false")
        }
    }
}

impl Select {
    /// The template value of the option picked at `selected`: its value.
    pub fn answer_value(&self, selected: usize) -> (r: String)
        requires
            selected < self.options@.len(),
        ensures
            r@ == self.options@[selected as int].value@,
    {
        owned(self.options[selected].value.as_str())
    }
}

impl MultiSelect {
    /// Which options start checked: those at the default positions; `None`
    /// when the prompt has no defaults.
    pub fn default_flags(&self) -> (r: Option<Vec<bool>>)
        requires
            self.default matches Some(d) ==> forall|k: int|
                0 <= k < d@.len() ==> d@[k] < self.options@.len(),
        ensures
            self.default is None <==> r is None,
            r matches Some(flags) ==> flags@.len() == self.options@.len() && forall|i: int|
                0 <= i < flags@.len() ==> #[trigger] flags@[i] == self.default->0@.contains(
                    i as usize,
                ),
    {
        match &self.default {
            None => None,
            Some(d) => {
                let n = self.options.len();
                let mut flags: Vec<bool> = Vec::new();
                let mut i: usize = 0;
                while i < n
                    invariant
                        i <= n,
                        flags@.len() == i,
                        forall|t: int| 0 <= t < i ==> !#[trigger] flags@[t],
                    decreases n - i,
                {
                    flags.push(false);
                    i = i + 1;
                }
                let mut k: usize = 0;
                while k < d.len()
                    invariant
                        n == self.options@.len(),
                        forall|t: int| 0 <= t < d@.len() ==> d@[t] < n,
                        k <= d@.len(),
                        flags@.len() == n,
                        forall|t: int|
                            0 <= t < n ==> #[trigger] flags@[t] == d@.take(k as int).contains(
                                t as usize,
                            ),
                    decreases d@.len() - k,
                {
                    let pos = d[k];
                    flags.set(pos, true);
                    proof {
                        assert forall|t: int| 0 <= t < n implies #[trigger] flags@[t] == d@.take(
                            k + 1,
                        ).contains(t as usize) by {
                            let a = d@.take(k as int);
                            let b = d@.take(k + 1);
                            assert(b =~= a.push(pos));
                            if t == pos as int {
                                assert(b[k as int] == pos);
                            } else {
                                if b.contains(t as usize) {
                                    let j = choose|j: int| 0 <= j < b.len() && b[j] == t as usize;
                                    assert(j < k);
                                    assert(a[j] == t as usize);
                                }
                                if a.contains(t as usize) {
                                    let j = choose|j: int| 0 <= j < a.len() && a[j] == t as usize;
                                    assert(b[j] == t as usize);
                                }
                            }
                        }
                    }
                    k = k + 1;
                }
                assert(d@.take(d@.len() as int) =~= d@);
                Some(flags)
            },
        }
    }

    /// The template value of the options picked at `selected`: the JSON
    /// array of their values, in the order picked.
    pub fn answer_value(&self, selected: &Vec<usize>) -> (r: String)
        requires
            forall|k: int| 0 <= k < selected@.len() ==> selected@[k] < self.options@.len(),
        ensures
            r@ == json_array(
                selected@.map_values(|i: usize| self.options@[i as int].value@),
            ),
    {
        let mut values: Vec<String> = Vec::new();
        let mut k: usize = 0;
        while k < selected.len()
            invariant
                forall|t: int| 0 <= t < selected@.len() ==> selected@[t] < self.options@.len(),
                k <= selected@.len(),
                values@.len() == k,
                forall|t: int|
                    0 <= t < k ==> #[trigger] values@[t]@ == self.options@[selected@[t] as int].value@,
            decreases selected@.len() - k,
        {
            values.push(owned(self.options[selected[k]].value.as_str()));
            k = k + 1;
        }
        assert(values@.map_values(|x: String| x@) =~= selected@.map_values(
            |i: usize| self.options@[i as int].value@,
        ));
        json_array_of(&values)
    }
}

impl Prompt {
    /// The prompt text and variable name shared by every kind of prompt.
    pub open spec fn common_fields(&self) -> CommonFields {
        match self {
            Prompt::Input(p) => p.common,
            Prompt::Select(p) => p.common,
            Prompt::Confirm(p) => p.common,
            Prompt::MultiSelect(p) => p.common,
        }
    }

    /// The template variable this prompt sets.
    pub open spec fn field_spec(&self) -> Seq<char> {
        match self {
            Prompt::Input(p) => p.common.field@,
            Prompt::Select(p) => p.common.field@,
            Prompt::Confirm(p) => p.common.field@,
            Prompt::MultiSelect(p) => p.common.field@,
        }
    }

    /// The template variable this prompt sets.
    pub fn get_field(&self) -> (r: &str)
        ensures
            r@ == self.field_spec(),
            r@ == self.common_fields().field@,
    {
        match self {
            Prompt::Input(p) => p.common.field.as_str(),
            Prompt::Select(p) => p.common.field.as_str(),
            Prompt::Confirm(p) => p.common.field.as_str(),
            Prompt::MultiSelect(p) => p.common.field.as_str(),
        }
    }
}

/// Every kind of prompt sets the variable named by its `field`, never its
/// prompt text: the variable is the same for two prompts that differ only
/// in the text they show.
pub proof fn law_prompt_sets_its_field(p: Prompt, text: String)
    ensures
        p.field_spec() == p.common_fields().field@,
        p matches Prompt::Input(x) ==> p.field_spec() == x.common.field@,
        p matches Prompt::Select(x) ==> p.field_spec() == x.common.field@,
        p matches Prompt::Confirm(x) ==> p.field_spec() == x.common.field@,
        p matches Prompt::MultiSelect(x) ==> p.field_spec() == x.common.field@,
        p matches Prompt::MultiSelect(x) ==> Prompt::MultiSelect(
            MultiSelect { common: CommonFields { prompt: text, field: x.common.field }, ..x },
        ).field_spec() == p.field_spec(),
        p matches Prompt::Input(x) ==> Prompt::Input(
            Input { common: CommonFields { prompt: text, field: x.common.field }, ..x },
        ).field_spec() == p.field_spec(),
        p matches Prompt::Select(x) ==> Prompt::Select(
            Select { common: CommonFields { prompt: text, field: x.common.field }, ..x },
        ).field_spec() == p.field_spec(),
        p matches Prompt::Confirm(x) ==> Prompt::Confirm(
            Confirm { common: CommonFields { prompt: text, field: x.common.field }, ..x },
        ).field_spec() == p.field_spec(),
{
}

/// The template data of a list of prompts is keyed by the prompts' `field`s.
pub proof fn law_template_data_keys_are_fields(ps: Prompts)
    ensures
        ps.fields().len() == ps.0@.len(),
        forall|i: int| 0 <= i < ps.0@.len() ==> #[trigger] ps.fields()[i] == ps.0@[i].common_fields().field@,
{
}

impl Prompts {
    /// The template variables, in the order the prompts are asked.
    pub open spec fn fields(&self) -> Seq<Seq<char>> {
        self.0@.map_values(|p: Prompt| p.field_spec())
    }

    /// The template data made from the `answers` (JSON texts, one per
    /// prompt, in order): an object that maps each prompt's variable to its
    /// answer. When two prompts set the same variable, the object holds it
    /// once, with the later answer.
    pub fn template_data(&self, answers: &Vec<String>) -> (r: String)
        requires
            answers@.len() == self.0@.len(),
        ensures
            r@ == json_object_last(self.fields(), answers@.map_values(|x: String| x@)),
    {
        let n = self.0.len();
        let mut keys: Vec<&str> = Vec::new();
        let mut k: usize = 0;
        while k < n
            invariant
                n == self.0@.len(),
                k <= n,
                keys@.len() == k,
                forall|t: int| 0 <= t < k ==> #[trigger] keys@[t]@ == self.0@[t].field_spec(),
            decreases n - k,
        {
            keys.push(self.0[k].get_field());
            k = k + 1;
        }
        assert(keys@.map_values(|x: &str| x@) =~= self.fields());
        json_object_last_of(&keys, answers)
    }
}

} // verus!
