use vstd::prelude::*;

verus! {

/// A stored flag is on exactly where its text is `true`; a missing one takes its default.
pub open spec fn flag_value(raw: Option<Seq<char>>, default: bool) -> bool {
    match raw {
        Some(v) => v == "true"@,
        None => default,
    }
}

/// Reads a stored flag from its text, if it was found.
pub fn setting_bool(raw: Option<String>, default: bool) -> (r: bool)
    ensures
        r == flag_value(
            match raw {
                Some(v) => Some(v@),
                None => None,
            },
            default,
        ),
{
    match raw {
        Some(v) => {
            let on = String::from_str("true");
            v == on
        },
        None => default,
    }
}

/// A stored text, or its default where it was not found.
pub fn setting_string(raw: Option<String>, default: &str) -> (r: String)
    ensures
        r@ == match raw {
            Some(v) => v@,
            None => default@,
        },
{
    match raw {
        Some(v) => v,
        None => String::from_str(default),
    }
}

} // verus!
