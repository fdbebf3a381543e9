use vstd::prelude::*;

use convert_case::Casing;

use crate::text::same_text;
use crate::upload::fields_view;

verus! {

/// A naming convention that field names are rewritten to.
#[derive(Debug, Clone, Copy, PartialEq, Eq, Structural)]
pub enum RenameRule {
    Snake,
    Kebab,
    Camel,
    Pascal,
    ScreamingSnake,
    Train,
}

/// What `s` becomes in naming convention number `case` (see `RenameRule::code`).
pub uninterp spec fn case_converted(s: Seq<char>, case: u8) -> Seq<char>;

impl RenameRule {
    /// A number for each convention.
    pub open spec fn code(self) -> u8 {
        match self {
            RenameRule::Snake => 0,
            RenameRule::Kebab => 1,
            RenameRule::Camel => 2,
            RenameRule::Pascal => 3,
            RenameRule::ScreamingSnake => 4,
            RenameRule::Train => 5,
        }
    }

    /// The convention that `name` stands for: `snake_case`, `kebab-case`, `camelCase`,
    /// `PascalCase`, `SCREAMING_SNAKE_CASE` or `Train-Case`.
    pub fn from_name(name: &str) -> (r: Option<RenameRule>)
        ensures
            r == (if name@ == "snake_case"@ {
                Some(RenameRule::Snake)
            } else if name@ == "kebab-case"@ {
                Some(RenameRule::Kebab)
            } else if name@ == "camelCase"@ {
                Some(RenameRule::Camel)
            } else if name@ == "PascalCase"@ {
                Some(RenameRule::Pascal)
            } else if name@ == "SCREAMING_SNAKE_CASE"@ {
                Some(RenameRule::ScreamingSnake)
            } else if name@ == "Train-Case"@ {
                Some(RenameRule::Train)
            } else {
                None
            }),
    {
        if same_text(name, "snake_case") {
            Some(RenameRule::Snake)
        } else if same_text(name, "kebab-case") {
            Some(RenameRule::Kebab)
        } else if same_text(name, "camelCase") {
            Some(RenameRule::Camel)
        } else if same_text(name, "PascalCase") {
            Some(RenameRule::Pascal)
        } else if same_text(name, "SCREAMING_SNAKE_CASE") {
            Some(RenameRule::ScreamingSnake)
        } else if same_text(name, "Train-Case") {
            Some(RenameRule::Train)
        } else {
            None
        }
    }
}

/// Relies on convert_case's `Casing::to_case`: the rewritten name depends on the name and the
/// convention alone.
#[verifier::external_body]
fn to_case(s: &str, rule: RenameRule) -> (r: String)
    ensures
        r@ == case_converted(s@, rule.code()),
{
    let case = match rule {
        RenameRule::Snake => convert_case::Case::Snake,
        RenameRule::Kebab => convert_case::Case::Kebab,
        RenameRule::Camel => convert_case::Case::Camel,
        RenameRule::Pascal => convert_case::Case::Pascal,
        RenameRule::ScreamingSnake => convert_case::Case::ScreamingSnake,
        RenameRule::Train => convert_case::Case::Train,
    };
    s.to_case(case)
}

/// One field of a parameter struct: its name, the name it is sent under if one is set, and
/// its value as text (`None` for an optional field that holds nothing).
#[derive(Debug, Clone)]
pub struct ParamField {
    pub name: String,
    pub rename: Option<String>,
    pub value: Option<String>,
}

/// The name a field is sent under: its own rename, else its name in the struct's convention,
/// else its name.
pub open spec fn param_key(f: ParamField, rename_all: Option<RenameRule>) -> Seq<char> {
    match f.rename {
        Some(r) => r@,
        None => match rename_all {
            Some(rule) => case_converted(f.name@, rule.code()),
            None => f.name@,
        },
    }
}

/// The (name, value) pairs of the fields that hold a value, in field order.
pub open spec fn params_of(fields: Seq<ParamField>, rename_all: Option<RenameRule>) -> Seq<
    (Seq<char>, Seq<char>),
>
    decreases fields.len(),
{
    if fields.len() == 0 {
        Seq::empty()
    } else {
        let init = params_of(fields.drop_last(), rename_all);
        match fields.last().value {
            Some(v) => init.push((param_key(fields.last(), rename_all), v@)),
            None => init,
        }
    }
}

/// The name a field is sent under.
fn key_of(f: &ParamField, rename_all: Option<RenameRule>) -> (r: String)
    ensures
        r@ == param_key(*f, rename_all),
{
    match &f.rename {
        Some(r) => r.clone(),
        None => match rename_all {
            Some(rule) => to_case(f.name.as_str(), rule),
            None => f.name.clone(),
        },
    }
}

/// The query parameters of a struct: one (name, value) pair for each field that holds a
/// value, in field order, named as `param_key` says.
pub fn serialize_params(fields: &Vec<ParamField>, rename_all: Option<RenameRule>) -> (r: Vec<
    (String, String),
>)
    ensures
        fields_view(r@) == params_of(fields@, rename_all),
{
    let mut r: Vec<(String, String)> = Vec::new();
    let mut i: usize = 0;
    while i < fields.len()
        invariant
            i <= fields@.len(),
            fields_view(r@) == params_of(fields@.subrange(0, i as int), rename_all),
        decreases fields@.len() - i,
    {
        let ghost prev = r@;
        let f = &fields[i];
        match &f.value {
            Some(v) => {
                let pair = (key_of(f, rename_all), v.clone());
                let ghost gp = pair;
                r.push(pair);
                assert(fields_view(r@) =~= fields_view(prev).push((gp.0@, gp.1@)));
            },
            None => {},
        }
        assert(fields@.subrange(0, i + 1).drop_last() =~= fields@.subrange(0, i as int));
        i = i + 1;
    }
    assert(fields@.subrange(0, fields@.len() as int) =~= fields@);
    r
}

} // verus!
