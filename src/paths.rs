//! Where the language server is looked for: PATH candidates and the
//! locations inside the extension's own package install.

use vstd::prelude::*;

verus! {

/// Operating-system family of the host.
#[derive(Debug, Clone, Copy, PartialEq, Eq, Structural)]
pub enum Os {
    Mac,
    Linux,
    Windows,
}

/// How far resolution may go.
#[derive(Debug, Clone, Copy, PartialEq, Eq, Structural)]
pub enum Mode {
    /// Only look the server up; never install it.
    PathOnly,
    /// Look it up, and install the pinned version when it is not found.
    Full,
}

/// The names handed to the PATH lookup, in order of preference.
pub open spec fn candidate_list(mode: Mode, os: Os) -> Seq<Seq<char>> {
    match mode {
        Mode::PathOnly => seq![
            "ripple-language-server"@,
            "node_modules/.bin/ripple-language-server"@,
        ],
        Mode::Full => if os == Os::Windows {
            seq![
                "language-server.cmd"@,
                "language-server"@,
                "node_modules/.bin/language-server.cmd"@,
                "node_modules/.bin/language-server"@,
            ]
        } else {
            seq![
                "@ripple-ts/language-server"@,
                "node_modules/.bin/@ripple-ts/language-server"@,
            ]
        },
    }
}

pub open spec fn ends_with(s: Seq<char>, suffix: Seq<char>) -> bool {
    s.len() >= suffix.len() && s.subrange(s.len() - suffix.len(), s.len() as int) == suffix
}

/// The PATH candidates for `mode` on `os`, in the order they are tried.
pub fn probe_candidates(mode: Mode, os: Os) -> (r: Vec<String>)
    ensures
        r.len() == candidate_list(mode, os).len(),
        forall|i: int| 0 <= i < r.len() ==> #[trigger] r[i]@ == candidate_list(mode, os)[i],
{
    let mut r: Vec<String> = Vec::new();
    match mode {
        Mode::PathOnly => {
            r.push(String::from_str("ripple-language-server"));
            r.push(String::from_str("node_modules/.bin/ripple-language-server"));
        },
        Mode::Full => {
            if os == Os::Windows {
                r.push(String::from_str("language-server.cmd"));
                r.push(String::from_str("language-server"));
                r.push(String::from_str("node_modules/.bin/language-server.cmd"));
                r.push(String::from_str("node_modules/.bin/language-server"));
            } else {
                r.push(String::from_str("@ripple-ts/language-server"));
                r.push(String::from_str("node_modules/.bin/@ripple-ts/language-server"));
            }
        },
    }
    r
}

/// On Windows every `.cmd` launcher is tried right before the bare name it
/// launches; elsewhere no candidate is a `.cmd` launcher, and the first one
/// is the scoped package name.
pub proof fn lemma_candidate_order(os: Os)
    ensures
        os == Os::Windows ==> {
            let c = candidate_list(Mode::Full, os);
            &&& c.len() == 4
            &&& c[0] == c[1] + ".cmd"@
            &&& c[2] == c[3] + ".cmd"@
        },
        os != Os::Windows ==> {
            let c = candidate_list(Mode::Full, os);
            &&& c.len() == 2
            &&& c[0] == "@ripple-ts/language-server"@
            &&& forall|i: int| 0 <= i < c.len() ==> !ends_with(#[trigger] c[i], ".cmd"@)
        },
{
    reveal_strlit("language-server.cmd");
    reveal_strlit("language-server");
    reveal_strlit("node_modules/.bin/language-server.cmd");
    reveal_strlit("node_modules/.bin/language-server");
    reveal_strlit("@ripple-ts/language-server");
    reveal_strlit("node_modules/.bin/@ripple-ts/language-server");
    reveal_strlit(".cmd");
    let c = candidate_list(Mode::Full, os);
    if os == Os::Windows {
        assert(c[0] =~= c[1] + ".cmd"@);
        assert(c[2] =~= c[3] + ".cmd"@);
    } else {
        assert forall|i: int| 0 <= i < c.len() implies !ends_with(#[trigger] c[i], ".cmd"@) by {
            let s = c[i];
            assert(s[s.len() - 1] != ".cmd"@[3]);
            assert(s.subrange(s.len() - 4, s.len() as int)[3] == s[s.len() - 1]);
        }
    }
}

/// `rel` appended to the directory `dir`, with one `/` between them.
pub open spec fn join_spec(dir: Seq<char>, rel: Seq<char>) -> Seq<char> {
    if dir.len() == 0 {
        rel
    } else if dir.last() == '/' {
        dir + rel
    } else {
        dir + "/"@ + rel
    }
}

/// Appends the relative path `rel` to the directory `dir`.
pub fn join_path(dir: &str, rel: &str) -> (r: String)
    ensures
        r@ == join_spec(dir@, rel@),
{
    let n = dir.unicode_len();
    if n == 0 {
        String::from_str(rel)
    } else if dir.get_char(n - 1) == '/' {
        String::from_str(dir).concat(rel)
    } else {
        String::from_str(dir).concat("/").concat(rel)
    }
}

/// The launcher that the package manager links into its bin directory.
pub open spec fn launcher_rel(os: Os) -> Seq<char> {
    if os == Os::Windows {
        "node_modules/.bin/ripple-language-server.cmd"@
    } else {
        "node_modules/.bin/ripple-language-server"@
    }
}

/// The entry script inside the installed package.
pub open spec fn entry_script_rel() -> Seq<char> {
    "node_modules/@ripple-ts/language-server/bin/ripple-language-server.js"@
}

/// The launcher path inside the extension directory `dir`.
pub fn installed_launcher_path(dir: &str, os: Os) -> (r: String)
    ensures
        r@ == join_spec(dir@, launcher_rel(os)),
{
    if os == Os::Windows {
        join_path(dir, "node_modules/.bin/ripple-language-server.cmd")
    } else {
        join_path(dir, "node_modules/.bin/ripple-language-server")
    }
}

/// The packaged entry script's path inside the extension directory `dir`.
pub fn installed_entry_script_path(dir: &str) -> (r: String)
    ensures
        r@ == join_spec(dir@, entry_script_rel()),
{
    join_path(dir, "node_modules/@ripple-ts/language-server/bin/ripple-language-server.js")
}

} // verus!
