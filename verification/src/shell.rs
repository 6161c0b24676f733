//! Shell selection and command-argument construction for a POSIX host,
//! plus the path translation used when commands are forwarded to a WSL
//! environment.
//!
//! Reading the environment and spawning commands are the embedding
//! program's business; these functions take the relevant environment
//! value as an argument and return plain strings.

use vstd::prelude::*;
use vstd::string::StrSliceExecFns;

verus! {

/// The shell named by the `SHELL` environment value, or `/bin/sh` when
/// none is set.
pub open spec fn default_shell_spec(shell_env: Option<Seq<char>>) -> Seq<char> {
    match shell_env {
        Option::Some(s) => s,
        Option::None => "/bin/sh"@,
    }
}

/// Returns the user's default shell path.
///
/// `shell_env` is the value of the `SHELL` environment variable, if
/// set; the fallback is `/bin/sh`.
pub fn get_default_shell(shell_env: Option<String>) -> (r: String)
    ensures
        r@ == default_shell_spec(match shell_env {
            Option::Some(ref s) => Option::Some(s@),
            Option::None => Option::None,
        }),
{
    match shell_env {
        Option::Some(s) => s,
        Option::None => {
            let fallback = String::from_str("/bin/sh");
            fallback
        },
    }
}

/// Returns shell and arguments for executing a command string:
/// `(shell, ["-c", cmd])`.
pub fn get_shell_command_args(shell_env: Option<String>, cmd: &str) -> (r: (String, Vec<String>))
    ensures
        r.0@ == default_shell_spec(match shell_env {
            Option::Some(ref s) => Option::Some(s@),
            Option::None => Option::None,
        }),
        r.1@.len() == 2,
        r.1@[0]@ == "-c"@,
        r.1@[1]@ == cmd@,
{
    let shell = get_default_shell(shell_env);
    let mut args: Vec<String> = Vec::new();
    args.push(String::from_str("-c"));
    args.push(String::from_str(cmd));
    (shell, args)
}

/// Returns shell and arguments for a login interactive shell run of a
/// command string: `(shell, ["-l", "-i", "-c", cmd])`.
pub fn get_login_shell_args(shell_env: Option<String>, cmd: &str) -> (r: (String, Vec<String>))
    ensures
        r.0@ == default_shell_spec(match shell_env {
            Option::Some(ref s) => Option::Some(s@),
            Option::None => Option::None,
        }),
        r.1@.len() == 4,
        r.1@[0]@ == "-l"@,
        r.1@[1]@ == "-i"@,
        r.1@[2]@ == "-c"@,
        r.1@[3]@ == cmd@,
{
    let shell = get_default_shell(shell_env);
    let mut args: Vec<String> = Vec::new();
    args.push(String::from_str("-l"));
    args.push(String::from_str("-i"));
    args.push(String::from_str("-c"));
    args.push(String::from_str(cmd));
    (shell, args)
}

/// WSL is a facility of the Windows family; on this POSIX build it is
/// never available.
pub fn is_wsl_available() -> (r: bool)
    ensures
        !r,
{
    false
}

/// Relies on String::push: appends exactly one character.
#[verifier::external_body]
fn push_char(s: &mut String, c: char)
    ensures
        final(s)@ == old(s)@.push(c),
{
    s.push(c);
}

/// A backslash becomes a forward slash; everything else is kept.
pub open spec fn backslash_to_slash(c: char) -> char {
    if c == '\\' {
        '/'
    } else {
        c
    }
}

/// An ASCII capital becomes its lower-case form; everything else is
/// kept.
pub open spec fn ascii_lowered(c: char) -> char {
    if ('A' as u32) <= (c as u32) <= ('Z' as u32) {
        ((((c as u32) + 32) as u8) as char)
    } else {
        c
    }
}

/// The WSL form of a Windows path: separators become forward slashes,
/// and a leading drive such as `C:` becomes the mount prefix `/mnt/c`.
/// A path without a drive prefix only has its separators translated.
pub open spec fn wsl_path_spec(s: Seq<char>) -> Seq<char> {
    let slashed = s.map_values(|c: char| backslash_to_slash(c));
    if s.len() >= 2 && s[1] == ':' {
        seq!['/', 'm', 'n', 't', '/'] + seq![ascii_lowered(backslash_to_slash(s[0]))]
            + slashed.subrange(2, slashed.len() as int)
    } else {
        slashed
    }
}

/// Translate one character as [`backslash_to_slash`] does.
fn slash_of(c: char) -> (r: char)
    ensures
        r == backslash_to_slash(c),
{
    if c == '\\' {
        '/'
    } else {
        c
    }
}

/// Convert a Windows path to WSL path format:
/// `C:\Users\me\file.txt` becomes `/mnt/c/Users/me/file.txt`.
pub fn windows_to_wsl_path(win_path: &str) -> (r: String)
    ensures
        r@ == wsl_path_spec(win_path@),
{
    let ghost s = win_path@;
    let ghost slashed = s.map_values(|c: char| backslash_to_slash(c));
    let n = win_path.unicode_len();
    let mut out = String::new();
    let mut start: usize = 0;
    if n >= 2 && win_path.get_char(1) == ':' {
        push_char(&mut out, '/');
        push_char(&mut out, 'm');
        push_char(&mut out, 'n');
        push_char(&mut out, 't');
        push_char(&mut out, '/');
        let c0 = slash_of(win_path.get_char(0));
        let u = c0 as u32;
        let lowered = if 65 <= u && u <= 90 {
            (((u + 32) as u8) as char)
        } else {
            c0
        };
        push_char(&mut out, lowered);
        proof {
            assert(lowered == ascii_lowered(backslash_to_slash(s[0])));
            assert(out@ =~= seq!['/', 'm', 'n', 't', '/'] + seq![
                ascii_lowered(backslash_to_slash(s[0])),
            ]);
        }
        start = 2;
    }
    let ghost prefix = out@;
    proof {
        assert(out@ =~= prefix + slashed.subrange(start as int, start as int));
    }
    let mut i: usize = start;
    while i < n
        invariant
            n == s.len(),
            s == win_path@,
            slashed == s.map_values(|c: char| backslash_to_slash(c)),
            start <= i <= n,
            out@ == prefix + slashed.subrange(start as int, i as int),
        decreases n - i,
    {
        let c = slash_of(win_path.get_char(i));
        push_char(&mut out, c);
        proof {
            assert(slashed[i as int] == backslash_to_slash(s[i as int]));
            assert(out@ =~= prefix + slashed.subrange(start as int, i + 1));
        }
        i = i + 1;
    }
    proof {
        assert(out@ == prefix + slashed.subrange(start as int, n as int));
        if s.len() >= 2 && s[1] == ':' {
            assert(out@ =~= wsl_path_spec(s));
        } else {
            assert(slashed.subrange(0, n as int) =~= slashed);
            assert(out@ =~= wsl_path_spec(s));
        }
    }
    out
}

} // verus!
