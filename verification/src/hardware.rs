//! Warning about hardware that is too slow for an authority.

use vstd::prelude::*;

verus! {

/// What the warning says before the failed requirements.
pub open spec fn slow_hardware_intro() -> Seq<char> {
    "⚠️  The hardware does not meet the minimal requirements "@
}

/// What the warning says after the failed requirements.
pub open spec fn slow_hardware_advice() -> Seq<char> {
    " for role 'Authority' find out more at:\nhttps://wiki.polkadot.network/docs/maintain-guides-how-to-validate-polkadot#reference-hardware"@
}

/// The warning to log once a hardware benchmark has been held against the reference hardware:
/// none where it meets the requirements, else a text around the failed requirements that
/// `check` reports.
pub fn warn_if_slow_hardware(check: Result<(), String>) -> (warning: Option<String>)
    ensures
        match check {
            Ok(_) => warning is None,
            Err(failed) => warning matches Some(text) && text@ == slow_hardware_intro() + failed@
                + slow_hardware_advice(),
        },
{
    match check {
        Ok(_) => None,
        Err(failed) => {
            let intro = "⚠️  The hardware does not meet the minimal requirements ".to_string();
            let advice =
                " for role 'Authority' find out more at:\nhttps://wiki.polkadot.network/docs/maintain-guides-how-to-validate-polkadot#reference-hardware";
            Some(intro.concat(failed.as_str()).concat(advice))
        },
    }
}

/// There is a warning if and only if the hardware falls short, and it holds the requirements that
/// failed, as they were reported, between what is wrong and where to read on.
pub proof fn lemma_warns_of_slow_hardware(check: Result<(), String>, warning: Option<String>)
    requires
        call_ensures(warn_if_slow_hardware, (check,), warning),
    ensures
        match (check, warning) {
            (Ok(_), None) => true,
            (Err(failed), Some(text)) => text@
                == "⚠️  The hardware does not meet the minimal requirements "@ + failed@
                + " for role 'Authority' find out more at:\nhttps://wiki.polkadot.network/docs/maintain-guides-how-to-validate-polkadot#reference-hardware"@,
            _ => false,
        },
{
}

} // verus!
