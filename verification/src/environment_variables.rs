//! Recording environment variables in a shell configuration file.
//!
//! The decisions live here: which shell uses which configuration file, and
//! how a file's lines change when variables are recorded -- an existing
//! `export` line for a variable is replaced in place, a new variable is
//! appended, and every other line is kept as it is.  Reading the file,
//! writing it back and re-sourcing the shell are the caller's work.

use vstd::prelude::*;

verus! {

/// One environment variable to record.
#[derive(Debug)]
pub struct EnvVar {
    pub name: String,
    pub value: String,
}

impl Clone for EnvVar {
    fn clone(&self) -> (r: Self)
        ensures
            r == *self,
    {
        EnvVar { name: self.name.clone(), value: self.value.clone() }
    }
}

/// A shell and the configuration file it reads at start-up.
#[derive(Debug)]
pub struct ShellInfo {
    pub shell_name: String,
    pub shell_config_file: String,
}

impl ShellInfo {
    pub fn new(shell_name: &str, shell_config_file: &str) -> (r: ShellInfo)
        ensures
            r.shell_name@ == shell_name@,
            r.shell_config_file@ == shell_config_file@,
    {
        ShellInfo {
            shell_name: shell_name.to_owned(),
            shell_config_file: shell_config_file.to_owned(),
        }
    }
}

/// Why no configuration file could be named.
#[derive(Clone, Copy, Debug, PartialEq, Eq, Structural)]
pub enum ShellConfigError {
    /// The user's shell is not one this program knows a configuration
    /// file for.
    UnsupportedShell,
}

/// The configuration file of the user's shell, by the shell's base name:
/// `bash` reads `.bashrc`, `zsh` reads `.zshrc`, anything else is
/// unsupported.
pub fn get_config_path(shell_name: &str) -> (r: Result<ShellInfo, ShellConfigError>)
    ensures
        (shell_name@ == "bash"@ || shell_name@ == "zsh"@) <==> (r is Ok),
        r matches Ok(info) ==> {
            &&& shell_name@ == "bash"@ ==> info.shell_name@ == "bash"@
                && info.shell_config_file@ == ".bashrc"@
            &&& shell_name@ == "zsh"@ ==> info.shell_name@ == "zsh"@
                && info.shell_config_file@ == ".zshrc"@
        },
        r matches Err(e) ==> e == ShellConfigError::UnsupportedShell,
{
    proof {
        reveal_strlit("bash");
        reveal_strlit("zsh");
    }
    let bash = String::from_str("bash");
    let zsh = String::from_str("zsh");
    let name = shell_name.to_owned();
    if name == bash {
        Ok(ShellInfo::new("bash", ".bashrc"))
    } else if name == zsh {
        Ok(ShellInfo::new("zsh", ".zshrc"))
    } else {
        Err(ShellConfigError::UnsupportedShell)
    }
}

/// The line that records a variable: `export NAME="VALUE"`.
pub open spec fn spec_export_line(name: Seq<char>, value: Seq<char>) -> Seq<char> {
    "export "@ + name + "=\""@ + value + "\""@
}

/// The prefix that marks an existing record of a variable: `export NAME=`.
pub open spec fn spec_export_prefix(name: Seq<char>) -> Seq<char> {
    "export "@ + name + "="@
}

/// The index of the first line that starts with the given prefix.
pub open spec fn spec_first_match(lines: Seq<Seq<char>>, prefix: Seq<char>) -> Option<int>
    decreases lines.len(),
{
    if lines.len() == 0 {
        None
    } else if prefix.is_prefix_of(lines[0]) {
        Some(0)
    } else {
        match spec_first_match(lines.drop_first(), prefix) {
            Some(j) => Some(j + 1),
            None => None,
        }
    }
}

/// A first match found at `j` means `spec_first_match` says `j`.
proof fn lemma_first_match_some(lines: Seq<Seq<char>>, prefix: Seq<char>, j: int)
    requires
        0 <= j < lines.len(),
        prefix.is_prefix_of(lines[j]),
        forall|k: int| 0 <= k < j ==> !prefix.is_prefix_of(lines[k]),
    ensures
        spec_first_match(lines, prefix) == Some(j),
    decreases j,
{
    if j > 0 {
        assert(!prefix.is_prefix_of(lines[0]));
        assert(lines.drop_first()[j - 1] == lines[j]);
        assert(forall|k: int|
            0 <= k < j - 1 ==> lines.drop_first()[k] == lines[k + 1]);
        lemma_first_match_some(lines.drop_first(), prefix, j - 1);
    }
}

/// No match anywhere means `spec_first_match` says so.
proof fn lemma_first_match_none(lines: Seq<Seq<char>>, prefix: Seq<char>)
    requires
        forall|k: int| 0 <= k < lines.len() ==> !prefix.is_prefix_of(lines[k]),
    ensures
        spec_first_match(lines, prefix) == None::<int>,
    decreases lines.len(),
{
    if lines.len() > 0 {
        assert(forall|k: int|
            0 <= k < lines.drop_first().len() ==> lines.drop_first()[k] == lines[k + 1]);
        lemma_first_match_none(lines.drop_first(), prefix);
    }
}

/// How recording one variable changes the lines: the first existing
/// `export NAME=` line is replaced by the new record, and when none
/// exists the record is appended at the end.
pub open spec fn spec_apply_var(
    lines: Seq<Seq<char>>,
    name: Seq<char>,
    value: Seq<char>,
) -> Seq<Seq<char>> {
    match spec_first_match(lines, spec_export_prefix(name)) {
        Some(j) => lines.update(j, spec_export_line(name, value)),
        None => lines.push(spec_export_line(name, value)),
    }
}

/// How recording a list of variables changes the lines: one after the
/// other, in order.
pub open spec fn spec_update_lines(lines: Seq<Seq<char>>, vars: Seq<EnvVar>) -> Seq<Seq<char>>
    decreases vars.len(),
{
    if vars.len() == 0 {
        lines
    } else {
        spec_apply_var(
            spec_update_lines(lines, vars.drop_last()),
            vars.last().name@,
            vars.last().value@,
        )
    }
}

/// The character sequences of a list of lines.
pub open spec fn lines_view(lines: Seq<String>) -> Seq<Seq<char>> {
    Seq::new(lines.len(), |i: int| lines[i]@)
}

/// Whether one text starts with another.
pub fn str_has_prefix(s: &str, p: &str) -> (b: bool)
    ensures
        b == p@.is_prefix_of(s@),
{
    let np = p.unicode_len();
    let ns = s.unicode_len();
    if np > ns {
        return false;
    }
    let mut i: usize = 0;
    while i < np
        invariant
            i <= np,
            np == p@.len(),
            ns == s@.len(),
            np <= ns,
            forall|k: int| 0 <= k < i ==> p@[k] == s@[k],
        decreases np - i,
    {
        if p.get_char(i) != s.get_char(i) {
            proof {
                assert(s@.subrange(0, np as int)[i as int] == s@[i as int]);
            }
            return false;
        }
        i = i + 1;
    }
    proof {
        assert(p@ =~= s@.subrange(0, np as int));
    }
    true
}

/// The line that records a variable, as a value.
pub fn export_line(name: &String, value: &String) -> (r: String)
    ensures
        r@ == spec_export_line(name@, value@),
{
    let mut r = String::from_str("export ");
    r.append(name.as_str());
    r.append("=\"");
    r.append(value.as_str());
    r.append("\"");
    r
}

/// The prefix that marks an existing record of a variable, as a value.
pub fn export_prefix(name: &String) -> (r: String)
    ensures
        r@ == spec_export_prefix(name@),
{
    let mut r = String::from_str("export ");
    r.append(name.as_str());
    r.append("=");
    r
}

/// The environment-variable recorder.
#[derive(Debug)]
pub struct EnvironmentVariables;

impl EnvironmentVariables {
    /// Record every given variable in the lines of a shell configuration
    /// file: for each variable in order, its first existing `export`
    /// line is replaced, or a new one is appended; all other lines are
    /// untouched.
    pub fn update(lines: Vec<String>, env_vars: &Vec<EnvVar>) -> (r: Vec<String>)
        ensures
            lines_view(r@) == spec_update_lines(lines_view(lines@), env_vars@),
    {
        let ghost lines0 = lines_view(lines@);
        let mut cur = lines;
        let nv = env_vars.len();
        let mut v: usize = 0;
        while v < nv
            invariant
                v <= nv,
                nv == env_vars@.len(),
                lines_view(cur@) == spec_update_lines(lines0, env_vars@.take(v as int)),
            decreases nv - v,
        {
            proof {
                assert(env_vars@.take(v + 1).drop_last() =~= env_vars@.take(v as int));
                assert(env_vars@.take(v + 1).last() == env_vars@[v as int]);
            }
            let ghost before = lines_view(cur@);
            let var = &env_vars[v];
            let prefix = export_prefix(&var.name);
            let line = export_line(&var.name, &var.value);
            let n = cur.len();
            let mut j: usize = 0;
            let mut found = false;
            while j < n && !found
                invariant
                    j <= n,
                    n == cur@.len(),
                    before == lines_view(cur@),
                    prefix@ == spec_export_prefix(var.name@),
                    !found ==> forall|k: int| 0 <= k < j ==> !prefix@.is_prefix_of(before[k]),
                    found ==> j < n && prefix@.is_prefix_of(before[j as int]) && (forall|k: int|
                        0 <= k < j ==> !prefix@.is_prefix_of(before[k])),
                decreases n - j + (if found { 0int } else { 1int }),
            {
                if str_has_prefix(cur[j].as_str(), prefix.as_str()) {
                    found = true;
                } else {
                    j = j + 1;
                }
            }
            if found {
                proof {
                    lemma_first_match_some(before, prefix@, j as int);
                }
                cur.set(j, line);
                proof {
                    assert(lines_view(cur@) =~= before.update(
                        j as int,
                        spec_export_line(var.name@, var.value@),
                    ));
                }
            } else {
                proof {
                    lemma_first_match_none(before, prefix@);
                }
                cur.push(line);
                proof {
                    assert(lines_view(cur@) =~= before.push(
                        spec_export_line(var.name@, var.value@),
                    ));
                }
            }
            v = v + 1;
        }
        proof {
            assert(env_vars@.take(nv as int) =~= env_vars@);
        }
        cur
    }
}

} // verus!
