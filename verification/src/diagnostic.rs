//! The fixed diagnostic that accompanies a fatal termination.

use vstd::prelude::*;
use vstd::string::*;

verus! {

/// The name under which the application identifies itself.
pub const APP_NAME: &'static str = "FutureBuddy Desktop";

/// What every diagnostic begins with; the application's name follows it.
pub const FAILURE_PREFIX: &'static str = "error while running ";

/// The application's name, as text.
pub open spec fn app_name() -> Seq<char> {
    APP_NAME@
}

/// The diagnostic for an application called `name`: the phrase that reports
/// the failed run, then the name.
pub open spec fn diagnostic_of(name: Seq<char>) -> Seq<char> {
    FAILURE_PREFIX@ + name
}

/// The one diagnostic this shell ever emits.
pub open spec fn failure_text() -> Seq<char> {
    diagnostic_of(app_name())
}

/// Builds the diagnostic for an application called `name`.
pub fn diagnostic(name: &str) -> (text: String)
    ensures
        text@ == diagnostic_of(name@),
{
    String::from_str(FAILURE_PREFIX).concat(name)
}

/// Builds the diagnostic of this shell.
pub fn failure_message() -> (text: String)
    ensures
        text@ == failure_text(),
{
    diagnostic(APP_NAME)
}

/// The diagnostic of this shell, letter for letter.
pub proof fn lemma_failure_text()
    ensures
        failure_text() == "error while running FutureBuddy Desktop"@,
{
    reveal_strlit("FutureBuddy Desktop");
    reveal_strlit("error while running ");
    reveal_strlit("error while running FutureBuddy Desktop");
    assert(failure_text() =~= "error while running FutureBuddy Desktop"@);
}

} // verus!
