//! The command descriptor: what to run, with which privileges, input and
//! environment, and how the window and tray should present it.
//!
//! A descriptor's command line and stdin payload may hold `$name`
//! placeholders; they are replaced by the descriptor's argument mapping, and
//! a name that the mapping lacks is kept as written. A placeholder name is
//! deliberately restricted to ASCII letters, digits and the underscore: a
//! name written with any other character is cut short at that character.

use vstd::prelude::*;

verus! {

/// The view of a list of string pairs as a list of character-sequence pairs.
pub open spec fn pairs_view(v: Seq<(String, String)>) -> Seq<(Seq<char>, Seq<char>)> {
    v.map_values(|p: (String, String)| (p.0@, p.1@))
}

/// The view of an optional string.
pub open spec fn opt_view(o: Option<String>) -> Option<Seq<char>> {
    match o {
        Some(s) => Some(s@),
        None => None,
    }
}

/// A character that may stand in a placeholder name: an ASCII letter, an
/// ASCII digit or the underscore, deliberately nothing wider.
pub open spec fn is_word_char(c: char) -> bool {
    ('a' <= c && c <= 'z') || ('A' <= c && c <= 'Z') || ('0' <= c && c <= '9') || c == '_'
}

/// The first value bound to the key, scanning the pairs front to back.
pub open spec fn lookup(pairs: Seq<(Seq<char>, Seq<char>)>, key: Seq<char>) -> Option<Seq<char>>
    decreases pairs.len(),
{
    if pairs.len() == 0 {
        None
    } else if pairs[0].0 == key {
        Some(pairs[0].1)
    } else {
        lookup(pairs.drop_first(), key)
    }
}

/// How many consecutive word characters stand at position `j`.
pub open spec fn word_run(s: Seq<char>, j: int) -> int
    decreases s.len() - j,
{
    if 0 <= j < s.len() && is_word_char(s[j]) {
        1 + word_run(s, j + 1)
    } else {
        0
    }
}

proof fn lemma_word_run_bounds(s: Seq<char>, j: int)
    ensures
        0 <= word_run(s, j),
        j + word_run(s, j) <= s.len() || word_run(s, j) == 0,
    decreases s.len() - j,
{
    if 0 <= j < s.len() && is_word_char(s[j]) {
        lemma_word_run_bounds(s, j + 1);
    }
}

/// The run length at `j` is exactly the distance to the first non-word
/// character at or after `j`.
proof fn lemma_word_run_range(s: Seq<char>, from: int, j: int)
    requires
        0 <= from <= j <= s.len(),
        forall|k: int| from <= k < j ==> is_word_char(s[k]),
        j == s.len() || !is_word_char(s[j]),
    ensures
        word_run(s, from) == j - from,
    decreases j - from,
{
    if from < j {
        lemma_word_run_range(s, from + 1, j);
    }
}

/// The rest of the substitution, from position `i` on: each `$name`
/// placeholder is replaced by the value bound to `name`, or kept as written
/// when no value is bound; every other character is copied.
pub open spec fn substitute_from(
    s: Seq<char>,
    i: int,
    pairs: Seq<(Seq<char>, Seq<char>)>,
) -> Seq<char>
    decreases s.len() - i,
        via substitute_from_decreases
{
    if i < 0 || i >= s.len() {
        Seq::empty()
    } else if s[i] == '$' && i + 1 < s.len() && is_word_char(s[i + 1]) {
        let n = word_run(s, i + 1);
        let word = s.subrange(i + 1, i + 1 + n);
        let replaced = match lookup(pairs, word) {
            Some(value) => value,
            None => seq!['$'] + word,
        };
        replaced + substitute_from(s, i + 1 + n, pairs)
    } else {
        seq![s[i]] + substitute_from(s, i + 1, pairs)
    }
}

#[via_fn]
proof fn substitute_from_decreases(s: Seq<char>, i: int, pairs: Seq<(Seq<char>, Seq<char>)>) {
    if 0 <= i < s.len() {
        lemma_word_run_bounds(s, i + 1);
    }
}

/// The whole command line or payload after placeholder substitution.
pub open spec fn substitute(s: Seq<char>, pairs: Seq<(Seq<char>, Seq<char>)>) -> Seq<char> {
    substitute_from(s, 0, pairs)
}

/// Whether the character may stand in a placeholder name.
pub fn word_char(c: char) -> (r: bool)
    ensures
        r == is_word_char(c),
{
    ('a' <= c && c <= 'z') || ('A' <= c && c <= 'Z') || ('0' <= c && c <= '9') || c == '_'
}

/// The first value bound to the key, scanning front to back.
fn lookup_value<'a>(pairs: &'a Vec<(String, String)>, key: &String) -> (r: Option<&'a String>)
    ensures
        match r {
            Some(value) => lookup(pairs_view(pairs@), key@) == Some(value@),
            None => lookup(pairs_view(pairs@), key@) is None,
        },
{
    let ghost view = pairs_view(pairs@);
    proof {
        assert(view.skip(0) =~= view);
    }
    let mut k: usize = 0;
    while k < pairs.len()
        invariant
            0 <= k <= pairs.len(),
            view == pairs_view(pairs@),
            view.len() == pairs.len(),
            lookup(view, key@) == lookup(view.skip(k as int), key@),
        decreases pairs.len() - k,
    {
        proof {
            assert(view.skip(k as int)[0] == view[k as int]);
            assert(view[k as int] == (pairs@[k as int].0@, pairs@[k as int].1@));
        }
        if pairs[k].0.eq(key) {
            return Some(&pairs[k].1);
        }
        proof {
            assert(view.skip(k as int).drop_first() =~= view.skip(k as int + 1));
        }
        k = k + 1;
    }
    proof {
        assert(view.skip(k as int) =~= Seq::empty());
    }
    None
}

/// Replaces each `$name` placeholder in `s` by the value that `args` binds
/// to `name`, keeping unbound placeholders and all other text as written.
pub fn replace_args(s: &String, args: &Vec<(String, String)>) -> (r: String)
    ensures
        r@ == substitute(s@, pairs_view(args@)),
{
    let ghost pairs = pairs_view(args@);
    let st: &str = s.as_str();
    let n: usize = st.unicode_len();
    let mut out = String::new();
    let mut i: usize = 0;
    proof {
        assert(Seq::<char>::empty() + substitute_from(s@, 0, pairs) =~= substitute_from(
            s@,
            0,
            pairs,
        ));
    }
    while i < n
        invariant
            st@ == s@,
            n == s@.len(),
            pairs == pairs_view(args@),
            0 <= i <= n,
            out@ + substitute_from(s@, i as int, pairs) == substitute(s@, pairs),
        decreases n - i,
    {
        let c = st.get_char(i);
        if c == '$' && i + 1 < n && word_char(st.get_char(i + 1)) {
            let mut j: usize = i + 1;
            while j < n
                invariant
                    st@ == s@,
                    n == s@.len(),
                    i + 1 <= j <= n,
                    forall|k: int| i + 1 <= k < j ==> is_word_char(s@[k]),
                ensures
                    st@ == s@,
                    n == s@.len(),
                    i + 1 <= j <= n,
                    forall|k: int| i + 1 <= k < j ==> is_word_char(s@[k]),
                    j == n || !is_word_char(s@[j as int]),
                decreases n - j,
            {
                if !word_char(st.get_char(j)) {
                    break;
                }
                j = j + 1;
            }
            proof {
                lemma_word_run_range(s@, i as int + 1, j as int);
            }
            let word: &str = st.substring_char(i + 1, j);
            let ghost run: int = word_run(s@, i as int + 1);
            let ghost piece: Seq<char> = match lookup(pairs, word@) {
                Some(value) => value,
                None => seq!['$'] + word@,
            };
            proof {
                assert(substitute_from(s@, i as int, pairs) == piece + substitute_from(
                    s@,
                    j as int,
                    pairs,
                ));
            }
            let owned_word = String::from_str(word);
            match lookup_value(args, &owned_word) {
                Some(value) => {
                    out.append(value.as_str());
                },
                None => {
                    out.append("$");
                    out.append(word);
                    proof {
                        reveal_strlit("$");
                        assert("$"@ =~= seq!['$']);
                    }
                },
            }
            proof {
                assert(out@ + substitute_from(s@, j as int, pairs) =~= substitute(s@, pairs));
            }
            i = j;
        } else {
            let piece: &str = st.substring_char(i, i + 1);
            out.append(piece);
            proof {
                assert(piece@ =~= seq![s@[i as int]]);
                assert(substitute_from(s@, i as int, pairs) == seq![s@[i as int]]
                    + substitute_from(s@, i as int + 1, pairs));
                assert(out@ + substitute_from(s@, i as int + 1, pairs) =~= substitute(s@, pairs));
            }
            i = i + 1;
        }
    }
    proof {
        assert(substitute_from(s@, n as int, pairs) =~= Seq::<char>::empty());
        assert(out@ + Seq::<char>::empty() =~= out@);
    }
    out
}

/// The parsed view of one configured program.
pub struct ProgramV {
    pub id: Seq<char>,
    pub command: Seq<char>,
    pub superuser: bool,
    pub input: Option<Seq<char>>,
    pub args: Seq<(Seq<char>, Seq<char>)>,
    pub env: Seq<(Seq<char>, Seq<char>)>,
    pub title: Option<Seq<char>>,
    pub icon_on: Option<Seq<char>>,
    pub icon_off: Option<Seq<char>>,
}

/// One configured program: the command descriptor together with how the
/// window and tray should present it.
pub struct Program {
    id: String,
    command: String,
    superuser: bool,
    input: Option<String>,
    args: Vec<(String, String)>,
    env: Vec<(String, String)>,
    title: Option<String>,
    icon_on: Option<String>,
    icon_off: Option<String>,
}

impl View for Program {
    type V = ProgramV;

    closed spec fn view(&self) -> ProgramV {
        ProgramV {
            id: self.id@,
            command: self.command@,
            superuser: self.superuser,
            input: opt_view(self.input),
            args: pairs_view(self.args@),
            env: pairs_view(self.env@),
            title: opt_view(self.title),
            icon_on: opt_view(self.icon_on),
            icon_off: opt_view(self.icon_off),
        }
    }
}

impl Program {
    /// Builds a descriptor from already-loaded configuration values.
    pub fn new(
        id: String,
        command: String,
        superuser: bool,
        input: Option<String>,
        args: Vec<(String, String)>,
        env: Vec<(String, String)>,
        title: Option<String>,
        icon_on: Option<String>,
        icon_off: Option<String>,
    ) -> (r: Program)
        ensures
            r@ == (ProgramV {
                id: id@,
                command: command@,
                superuser: superuser,
                input: opt_view(input),
                args: pairs_view(args@),
                env: pairs_view(env@),
                title: opt_view(title),
                icon_on: opt_view(icon_on),
                icon_off: opt_view(icon_off),
            }),
    {
        Program { id, command, superuser, input, args, env, title, icon_on, icon_off }
    }

    /// The configured identifier.
    pub fn get_id(&self) -> (r: &str)
        ensures
            r@ == self@.id,
    {
        self.id.as_str()
    }

    /// The configured environment overrides, in configuration order.
    pub fn get_env(&self) -> (r: &Vec<(String, String)>)
        ensures
            pairs_view(r@) == self@.env,
    {
        &self.env
    }

    /// The command line to run, with placeholders substituted.
    pub fn get_command(&self) -> (r: String)
        ensures
            r@ == substitute(self@.command, self@.args),
    {
        replace_args(&self.command, &self.args)
    }

    /// Whether the program must run with elevated privileges.
    pub fn need_superuser(&self) -> (r: bool)
        ensures
            r == self@.superuser,
    {
        self.superuser
    }

    /// The stdin payload to seed the program with, with placeholders
    /// substituted; `None` when no payload is configured.
    pub fn get_input(&self) -> (r: Option<String>)
        ensures
            r is Some <==> self@.input is Some,
            r matches Some(v) ==> self@.input matches Some(inp) && v@ == substitute(
                inp,
                self@.args,
            ),
    {
        match &self.input {
            Some(inp) => Some(replace_args(inp, &self.args)),
            None => None,
        }
    }

    /// The window title: the configured one, or the identifier when none is
    /// configured.
    pub fn get_title(&self) -> (r: &str)
        ensures
            self@.title matches Some(t) ==> r@ == t,
            self@.title is None ==> r@ == self@.id,
    {
        match &self.title {
            Some(t) => t.as_str(),
            None => self.id.as_str(),
        }
    }

    /// The configured path of the running-state icon, if any.
    pub fn get_icon_on_path(&self) -> (r: Option<&str>)
        ensures
            r is Some <==> self@.icon_on is Some,
            r matches Some(p) ==> self@.icon_on matches Some(q) && p@ == q,
    {
        match &self.icon_on {
            Some(p) => Some(p.as_str()),
            None => None,
        }
    }

    /// The configured path of the stopped-state icon, if any.
    pub fn get_icon_off_path(&self) -> (r: Option<&str>)
        ensures
            r is Some <==> self@.icon_off is Some,
            r matches Some(p) ==> self@.icon_off matches Some(q) && p@ == q,
    {
        match &self.icon_off {
            Some(p) => Some(p.as_str()),
            None => None,
        }
    }
}

} // verus!
