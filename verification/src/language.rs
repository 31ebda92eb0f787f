use vstd::prelude::*;
use vstd::string::StringExecFns;

verus! {

/// The language assumed where the system names none.
pub const DEFAULT_LANGUAGE: &'static str = "en";

/// Calls `sys_locale::get_locale`, which asks the operating system for the
/// user's preferred locale. Nothing is claimed of the answer: it depends on
/// the machine and the moment.
#[verifier::external_body]
fn system_locale() -> Option<String> {
    sys_locale::get_locale()
}

/// The locale the system named, or the default language where it named none.
pub open spec fn language_for(locale: Option<String>) -> Seq<char> {
    match locale {
        Some(tag) => tag@,
        None => DEFAULT_LANGUAGE@,
    }
}

/// Chooses the language tag for a locale the system did or did not name.
pub fn language_or_default(locale: Option<String>) -> (language: String)
    ensures
        language@ == language_for(locale),
{
    match locale {
        Some(tag) => tag,
        None => String::from_str(DEFAULT_LANGUAGE),
    }
}

/// The language tag of the user's locale, `en` where the system names none.
pub fn get_system_language() -> (language: String) {
    language_or_default(system_locale())
}

} // verus!
