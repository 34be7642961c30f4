use vstd::prelude::*;

verus! {

/// The direct launch command for a server artifact stem.
pub fn start_command(jar_name: String) -> (r: String)
    ensures
        r@ == "java -Xms1G -Xmx2G -jar "@ + jar_name@ + ".jar nogui"@,
{
    let mut out = String::from_str("java -Xms1G -Xmx2G -jar ");
    out.append(jar_name.as_str());
    out.append(".jar nogui");
    out
}

/// The launch command when the management layer drives the server.
pub fn mcdr_start_invocation(python: &str) -> (r: String)
    ensures
        r@ == python@ + " -m mcdreforged start"@,
{
    let mut out = String::from_str(python);
    out.append(" -m mcdreforged start");
    out
}

/// The start-command line injected into the management layer's main config.
pub fn mcdr_config_command_line(jar_name: String) -> (r: String)
    ensures
        r@ == "start_command: "@ + "java -Xms1G -Xmx2G -jar "@ + jar_name@ + ".jar nogui"@,
{
    let cmd = start_command(jar_name);
    let mut out = String::from_str("start_command: ");
    out.append(cmd.as_str());
    out
}

/// The owner line injected into the management layer's permission file.
pub fn nickname_line(nickname: &str) -> (r: String)
    ensures
        r@ == "- "@ + nickname@,
{
    let mut out = String::from_str("- ");
    out.append(nickname);
    out
}

/// The Windows launch script: the command, marked quiet, one trailing
/// blank line.
pub fn windows_script_lines(cmd: &str) -> (r: Vec<String>)
    ensures
        r.deep_view() == seq!["@echo off"@, cmd@, ""@],
{
    let mut lines: Vec<String> = Vec::new();
    lines.push(String::from_str("@echo off"));
    lines.push(String::from_str(cmd));
    lines.push(String::from_str(""));
    proof {
        assert(lines.deep_view() =~= seq!["@echo off"@, cmd@, ""@]);
    }
    lines
}

/// The POSIX launch script: interpreter line, the command, one trailing
/// blank line.
pub fn posix_script_lines(cmd: &str) -> (r: Vec<String>)
    ensures
        r.deep_view() == seq!["#!\\bin\\bash"@, cmd@, ""@],
{
    let mut lines: Vec<String> = Vec::new();
    lines.push(String::from_str("#!\\bin\\bash"));
    lines.push(String::from_str(cmd));
    lines.push(String::from_str(""));
    proof {
        assert(lines.deep_view() =~= seq!["#!\\bin\\bash"@, cmd@, ""@]);
    }
    lines
}

} // verus!
