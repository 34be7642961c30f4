use vstd::prelude::*;

use crate::artifact::artifact_stem;
use crate::artifact::stem_spec;

verus! {

/// The pinned mod-loader installer download URL.
pub fn fabric_installer_url() -> (r: &'static str)
    ensures
        r@ == "https://maven.fabricmc.net/net/fabricmc/fabric-installer/0.11.0/fabric-installer-0.11.0.jar"@,
{
    "https://maven.fabricmc.net/net/fabricmc/fabric-installer/0.11.0/fabric-installer-0.11.0.jar"
}

/// The fixed artifact stem the mod loader materializes.
pub fn fabric_artifact_stem() -> (r: String)
    ensures
        r@ == "fabric-server-launch"@,
{
    String::from_str("fabric-server-launch")
}

/// The mod-loader installer invocation: install a server, pin the version
/// where one was requested, and download the base server.
pub fn fabric_install_args(installer: &str, minecraft: &str) -> (r: Vec<String>)
    ensures
        minecraft@.len() == 0 ==> r.deep_view() == seq![
            "-jar"@,
            installer@,
            "server"@,
            "-downloadMinecraft"@,
        ],
        minecraft@.len() > 0 ==> r.deep_view() == seq![
            "-jar"@,
            installer@,
            "server"@,
            "-mcversion"@,
            minecraft@,
            "-downloadMinecraft"@,
        ],
{
    let mut args: Vec<String> = Vec::new();
    args.push(String::from_str("-jar"));
    args.push(String::from_str(installer));
    args.push(String::from_str("server"));
    if minecraft.unicode_len() > 0 {
        args.push(String::from_str("-mcversion"));
        args.push(String::from_str(minecraft));
        args.push(String::from_str("-downloadMinecraft"));
        proof {
            assert(args.deep_view() =~= seq![
                "-jar"@,
                installer@,
                "server"@,
                "-mcversion"@,
                minecraft@,
                "-downloadMinecraft"@,
            ]);
        }
    } else {
        args.push(String::from_str("-downloadMinecraft"));
        proof {
            assert(args.deep_view() =~= seq![
                "-jar"@,
                installer@,
                "server"@,
                "-downloadMinecraft"@,
            ]);
        }
    }
    args
}

/// Assembles the installation result of the chosen loader strategy: the
/// artifact stem and the resolved version.
///
/// The vanilla strategy derives the stem from the downloaded server file's
/// name; the mod loader always materializes the same stem.
pub fn loader_setup(loader: i8, server_file: Option<&str>, minecraft: String) -> (r: [String; 2])
    requires
        loader == 1 || loader == 2,
        loader == 1 ==> server_file is Some,
    ensures
        loader == 1 ==> (server_file matches Some(f) && r@[0]@ == stem_spec(f@)),
        loader == 2 ==> r@[0]@ == "fabric-server-launch"@,
        r@[1]@ == minecraft@,
{
    let stem: String = match server_file {
        Some(f) if loader == 1 => artifact_stem(f),
        _ => fabric_artifact_stem(),
    };
    [stem, minecraft]
}

} // verus!
