use vstd::prelude::*;

use crate::patch::ConfigPatch;
use crate::patch::patch_is;
use crate::patch::EULA_LINE;
use crate::patch::MCDR_CONSOLE_THREAD_LINE;

verus! {

/// One step of the supervised first boot, in order.
pub enum FirstRunAction {
    /// Replace one line of a configuration file.
    Patch(ConfigPatch),
    /// Invoke the generated launch script and wait for it to exit.
    RunLaunchScript,
    /// Descend into the loader subdirectory for the steps that follow.
    EnterServerDir,
}

/// The ordered steps of a confirmed first boot.
///
/// Under the management layer its console thread is switched off around
/// the boot, and the license file lives under the loader subdirectory;
/// without it the boot and the license patch happen in the workspace root.
pub fn first_run_actions(is_mcdr: bool) -> (r: Vec<FirstRunAction>)
    ensures
        is_mcdr ==> r@.len() == 5 && (r@[0] matches FirstRunAction::Patch(p) && patch_is(
            p,
            "config.yml"@,
            77,
            "disable_console_thread: true"@,
        )) && r@[1] is RunLaunchScript && (r@[2] matches FirstRunAction::Patch(p) && patch_is(
            p,
            "config.yml"@,
            77,
            "disable_console_thread: false"@,
        )) && r@[3] is EnterServerDir && (r@[4] matches FirstRunAction::Patch(p) && patch_is(
            p,
            "eula.txt"@,
            2,
            "eula=true"@,
        )),
        !is_mcdr ==> r@.len() == 2 && r@[0] is RunLaunchScript && (r@[1] matches
        FirstRunAction::Patch(p) && patch_is(p, "eula.txt"@, 2, "eula=true"@)),
{
    let mut steps: Vec<FirstRunAction> = Vec::new();
    if is_mcdr {
        steps.push(
            FirstRunAction::Patch(
                ConfigPatch {
                    file: String::from_str("config.yml"),
                    line: MCDR_CONSOLE_THREAD_LINE,
                    text: String::from_str("disable_console_thread: true"),
                },
            ),
        );
        steps.push(FirstRunAction::RunLaunchScript);
        steps.push(
            FirstRunAction::Patch(
                ConfigPatch {
                    file: String::from_str("config.yml"),
                    line: MCDR_CONSOLE_THREAD_LINE,
                    text: String::from_str("disable_console_thread: false"),
                },
            ),
        );
        steps.push(FirstRunAction::EnterServerDir);
        steps.push(
            FirstRunAction::Patch(
                ConfigPatch {
                    file: String::from_str("eula.txt"),
                    line: EULA_LINE,
                    text: String::from_str("eula=true"),
                },
            ),
        );
    } else {
        steps.push(FirstRunAction::RunLaunchScript);
        steps.push(
            FirstRunAction::Patch(
                ConfigPatch {
                    file: String::from_str("eula.txt"),
                    line: EULA_LINE,
                    text: String::from_str("eula=true"),
                },
            ),
        );
    }
    steps
}

} // verus!
