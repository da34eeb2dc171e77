//! `kimcli app`.
//!
//! kimcli does not bundle, download or install a desktop application and never
//! launches one on the user's behalf: the subcommand always refuses, on every
//! platform.
use vstd::prelude::*;

verus! {

/// Why `kimcli app` refuses.
pub open spec fn run_app_refusal() -> Seq<char> {
    "kimcli does not bundle or install a desktop app, and will not download or launch OpenAI's Codex Desktop on your behalf. Kim has its own, separate desktop app \u{2014} install it from the kim-pro project instead of running `kimcli app`."@
}

/// Runs `kimcli app`: always refuses with `run_app_refusal()`.
pub fn run_app() -> (r: Result<(), String>)
    ensures
        r matches Err(e) && e@ == run_app_refusal(),
{
    Err(
        String::from_str(
            "kimcli does not bundle or install a desktop app, and will not download or launch OpenAI's Codex Desktop on your behalf. Kim has its own, separate desktop app \u{2014} install it from the kim-pro project instead of running `kimcli app`.",
        ),
    )
}

} // verus!
