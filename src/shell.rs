//! Choosing the interpreter that runs incoming commands, once per process.
use vstd::prelude::*;

verus! {

/// Symlink that records the image's original default shell.
pub const SHELL_LINK: &'static str = "/igloo/utils/sh.orig";

/// Interpreter used when no override is given and the symlink cannot be read:
/// a multi-call binary that needs the `sh` applet name.
pub const FALLBACK_SHELL: &'static str = "/bin/busybox";

/// What `shlex::split` makes of a command line: its words, or none when the
/// quoting is unbalanced.
pub uninterp spec fn shell_words(s: Seq<char>) -> Option<Seq<Seq<char>>>;

/// Relies on shlex::split: the words of a POSIX-style command line, or `None`
/// when it is erroneous.
#[verifier::external_body]
fn split_words(s: &str) -> (r: Option<Vec<String>>)
    ensures
        match r {
            Some(v) => shell_words(s@) == Some(v@.map_values(|w: String| w@)),
            None => shell_words(s@) is None,
        },
{
    shlex::split(s)
}

/// The applet name handed to a multi-call binary so that it acts as a shell.
pub open spec fn sh_text() -> Seq<char> {
    seq!['s', 'h']
}

/// Whether a name ends in `sh`.
pub open spec fn ends_in_sh(s: Seq<char>) -> bool {
    s.len() >= 2 && s[s.len() - 2] == 's' && s[s.len() - 1] == 'h'
}

/// The interpreter to use: an explicit override first, then the target of
/// the symlink, then the fallback.
pub open spec fn chosen_shell(
    explicit: Option<Seq<char>>,
    link_target: Option<Seq<char>>,
) -> Seq<char> {
    match explicit {
        Some(s) => s,
        None => match link_target {
            Some(t) => t,
            None => FALLBACK_SHELL@,
        },
    }
}

/// The arguments handed to the interpreter named by `words[0]`: the
/// remaining words, after `sh` where that name does not end in `sh`.
pub open spec fn effective_args(words: Seq<Seq<char>>) -> Seq<Seq<char>>
    recommends
        words.len() > 0,
{
    if ends_in_sh(words[0]) {
        words.drop_first()
    } else {
        seq![sh_text()] + words.drop_first()
    }
}

/// An explicit override is always taken, whatever the symlink holds; the
/// symlink's target is taken over the fallback whenever it could be read.
pub proof fn lemma_shell_precedence(explicit: Option<Seq<char>>, link_target: Option<Seq<char>>)
    ensures
        explicit matches Some(s) ==> chosen_shell(explicit, link_target) == s,
        explicit is None ==> (link_target matches Some(t) ==> chosen_shell(explicit, link_target)
            == t),
        explicit is None && link_target is None ==> chosen_shell(explicit, link_target)
            == FALLBACK_SHELL@,
{
}

/// Where the program's name does not end in `sh`, the arguments are `sh`
/// once, then the remaining words unchanged; where it does, they are the
/// remaining words alone.
pub proof fn lemma_sh_prepended_once(words: Seq<Seq<char>>)
    requires
        words.len() > 0,
    ensures
        !ends_in_sh(words[0]) ==> effective_args(words).len() == words.len()
            && effective_args(words)[0] == sh_text() && effective_args(words).drop_first()
            == words.drop_first(),
        ends_in_sh(words[0]) ==> effective_args(words) == words.drop_first(),
{
    if !ends_in_sh(words[0]) {
        assert(effective_args(words).drop_first() =~= words.drop_first());
    }
}

/// Returns whether `s` ends in `sh`.
pub fn ends_with_sh(s: &str) -> (r: bool)
    ensures
        r == ends_in_sh(s@),
{
    let n = s.unicode_len();
    n >= 2 && s.get_char(n - 2) == 's' && s.get_char(n - 1) == 'h'
}

/// Picks the interpreter path. `explicit` is the configured override and
/// `link_target` what the symlink resolved to, if it could be read.
pub fn resolve_shell(explicit: Option<String>, link_target: Option<String>) -> (r: String)
    ensures
        r@ == chosen_shell(
            match explicit {
                Some(s) => Some(s@),
                None => None,
            },
            match link_target {
                Some(t) => Some(t@),
                None => None,
            },
        ),
{
    match explicit {
        Some(s) => s,
        None => match link_target {
            Some(t) => t,
            None => String::from_str(FALLBACK_SHELL),
        },
    }
}

/// Why no interpreter could be taken from a configured shell line.
#[derive(Debug, PartialEq, Eq, Structural)]
pub enum ShellError {
    /// The line's quoting is unbalanced.
    Unbalanced,
    /// The line holds no word.
    Empty,
}

/// The interpreter invocation: the program and its fixed leading arguments.
#[derive(Debug)]
pub struct ShellSpec {
    pub program: String,
    pub args: Vec<String>,
}

impl ShellSpec {
    /// The texts of the arguments.
    pub open spec fn args_view(&self) -> Seq<Seq<char>> {
        self.args@.map_values(|a: String| a@)
    }

    /// This invocation is the one that the words of a shell line call for.
    pub open spec fn from_words_spec(&self, words: Seq<Seq<char>>) -> bool {
        &&& words.len() > 0
        &&& self.program@ == words[0]
        &&& self.args_view() == effective_args(words)
    }

    /// Takes the program from the first word and the arguments from the
    /// others, with `sh` put first where the program's name does not end in
    /// `sh`. There is none for no words.
    pub fn from_words(words: Vec<String>) -> (r: Option<ShellSpec>)
        ensures
            r is Some <==> words@.len() > 0,
            r matches Some(spec) ==> spec.from_words_spec(words@.map_values(|w: String| w@)),
    {
        let ghost all = words@.map_values(|w: String| w@);
        if words.len() == 0 {
            return None;
        }
        let mut rest = words;
        let program = rest.remove(0);
        assert(rest@.map_values(|w: String| w@) =~= all.drop_first());
        if ends_with_sh(program.as_str()) {
            Some(ShellSpec { program, args: rest })
        } else {
            let mut args: Vec<String> = Vec::new();
            let sh = String::from_str("sh");
            proof {
                reveal_strlit("sh");
                assert(sh@ =~= sh_text());
            }
            args.push(sh);
            args.append(&mut rest);
            assert(args@.map_values(|a: String| a@) =~= seq![sh_text()] + all.drop_first());
            Some(ShellSpec { program, args })
        }
    }

    /// Splits the configured shell line into words and takes the invocation
    /// from them.
    pub fn resolve(shell: &str) -> (r: Result<ShellSpec, ShellError>)
        ensures
            shell_words(shell@) is None <==> r == Err::<ShellSpec, ShellError>(
                ShellError::Unbalanced,
            ),
            shell_words(shell@) == Some(Seq::<Seq<char>>::empty()) <==> r == Err::<
                ShellSpec,
                ShellError,
            >(ShellError::Empty),
            r matches Ok(spec) ==> shell_words(shell@) matches Some(w) && spec.from_words_spec(w),
    {
        match split_words(shell) {
            None => Err(ShellError::Unbalanced),
            Some(words) => {
                let ghost w = words@.map_values(|x: String| x@);
                match ShellSpec::from_words(words) {
                    Some(spec) => Ok(spec),
                    None => {
                        assert(w =~= Seq::<Seq<char>>::empty());
                        Err(ShellError::Empty)
                    },
                }
            },
        }
    }
}

} // verus!
