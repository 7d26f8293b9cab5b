//! The configuration file: a line-based list of verbs, each with one
//! argument, and the settings that the unlocker reads from it.
use vstd::prelude::*;
use vstd::utf8::{decode_utf8, valid_utf8};

use crate::error::Error;
use crate::text::{find_char, push_char, skip_whitespace, skip_whitespace_back, str_eq};
use crate::text::{index_of, is_whitespace, trim, trim_end, trim_start};
use crate::text::{lemma_index_of, lemma_trim_end, lemma_trim_start};

verus! {

/// Prompt that is shown where the file sets none.
pub const DEFAULT_PROMPT: &'static str = "password: ";

/// Prompt after a bad attempt where the file sets none.
pub const DEFAULT_RETRY_PROMPT: &'static str = "bad password, retry: ";

/// Message on lockout where the file sets none.
pub const DEFAULT_LOCKED_MSG: &'static str =
    "Too many bad tries, SED locked out, resetting in 10s..";

/// A verb and its argument.
pub type Verb = (Seq<char>, Seq<char>);

/// The line up to its first `#`.
pub open spec fn strip_comment(s: Seq<char>) -> Seq<char> {
    s.take(index_of(s, '#'))
}

/// The argument without the pair of single quotes around it, where it has
/// one.
pub open spec fn strip_quotes(s: Seq<char>) -> Seq<char> {
    if s.len() >= 2 && s[0] == '\'' && s.last() == '\'' {
        s.subrange(1, s.len() - 1)
    } else {
        s
    }
}

/// What a line says. Leading white space, a comment and trailing white
/// space are dropped; a line of which nothing is left says nothing. Else
/// the verb is what stands before the first space, and the argument what
/// follows it, trimmed and without its quotes.
pub open spec fn line_verb(line: Seq<char>) -> Option<Verb> {
    let l = trim_end(strip_comment(trim_start(line)));
    if l.len() == 0 {
        None
    } else {
        let k = index_of(l, ' ');
        let rest = if k < l.len() {
            l.skip(k + 1)
        } else {
            Seq::empty()
        };
        Some((l.take(k), strip_quotes(trim(rest))))
    }
}

/// The verbs of a text, line by line; lines end at a line feed.
pub open spec fn verbs_of(text: Seq<char>) -> Seq<Verb>
    decreases text.len(),
{
    let k = index_of(text, '\n');
    let tail = if 0 <= k < text.len() {
        verbs_of(text.skip(k + 1))
    } else {
        Seq::empty()
    };
    match line_verb(text.take(k)) {
        Some(verb) => seq![verb] + tail,
        None => tail,
    }
}

/// The verbs as sequences of characters.
pub open spec fn pairs(verbs: Seq<(&str, &str)>) -> Seq<Verb> {
    Seq::new(verbs.len(), |i: int| (verbs[i].0@, verbs[i].1@))
}

/// What stands between two arguments that are joined.
pub open spec fn separator(joiner: Option<char>) -> Seq<char> {
    match joiner {
        Some(c) => seq![c],
        None => Seq::empty(),
    }
}

/// The arguments of every occurrence of `verb`, in order, with the joiner
/// between them; `None` where the verb does not occur.
pub open spec fn joined(verbs: Seq<Verb>, verb: Seq<char>, joiner: Option<char>) -> Option<
    Seq<char>,
>
    decreases verbs.len(),
{
    if verbs.len() == 0 {
        None
    } else {
        let before = joined(verbs.drop_last(), verb, joiner);
        let last = verbs.last();
        if last.0 != verb {
            before
        } else {
            match before {
                None => Some(last.1),
                Some(text) => Some(text + separator(joiner) + last.1),
            }
        }
    }
}

/// The characters of a string that may be there.
pub open spec fn opt_view(text: Option<String>) -> Option<Seq<char>> {
    match text {
        Some(s) => Some(s@),
        None => None,
    }
}

/// The characters of a pair of strings that may be there.
pub open spec fn opt_pair_view(verb: Option<(&str, &str)>) -> Option<Verb> {
    match verb {
        Some(v) => Some((v.0@, v.1@)),
        None => None,
    }
}

/// How much the unlocker logs.
#[derive(Debug, Copy, Clone, PartialEq, Eq, Structural)]
pub enum LogLevel {
    Error,
    Warn,
    Info,
    Debug,
    Trace,
}

/// The level that the argument of `log-level` asks for; `Info` where there
/// is none, or none that is known.
pub open spec fn level_of(text: Option<Seq<char>>) -> LogLevel {
    match text {
        None => LogLevel::Info,
        Some(s) => if s == "error"@ {
            LogLevel::Error
        } else if s == "warn"@ {
            LogLevel::Warn
        } else if s == "info"@ {
            LogLevel::Info
        } else if s == "debug"@ {
            LogLevel::Debug
        } else if s == "trace"@ {
            LogLevel::Trace
        } else {
            LogLevel::Info
        },
    }
}

/// Every character has a UCS-2 unit of its own, and none is the zero that
/// ends a string.
pub open spec fn ucs2_encodable(text: Seq<char>) -> bool {
    forall|i: int| 0 <= i < text.len() ==> #[trigger] is_ucs2(text[i])
}

/// The character lies in the basic plane and is not zero.
pub open spec fn is_ucs2(c: char) -> bool {
    0 < c as u32 <= 0xFFFF
}

/// The UCS-2 units of a text, then the zero that ends it.
pub open spec fn ucs2_units(text: Seq<char>) -> Seq<u16> {
    Seq::new(text.len(), |i: int| text[i] as u16).push(0u16)
}

/// Calls `uefi::CString16::try_from` on a string and copies the units out
/// with `to_u16_slice_with_nul`. The contract claims what the source of
/// the conversion shows: it succeeds if and only if no character lies
/// beyond the basic plane and none is zero, and the units are then those
/// of the characters, followed by a zero.
#[verifier::external_body]
fn to_ucs2(text: &str) -> (units: Option<Vec<u16>>)
    ensures
        units is Some <==> ucs2_encodable(text@),
        units matches Some(v) ==> v@ == ucs2_units(text@),
{
    match uefi::CString16::try_from(text) {
        Ok(s) => Some(s.to_u16_slice_with_nul().to_vec()),
        Err(_) => None,
    }
}

/// Calls `core::str::from_utf8`. The contract claims what its
/// documentation says: the bytes are accepted if and only if they are
/// valid UTF-8, and the string then holds the characters that they encode.
#[verifier::external_body]
fn utf8_text(bytes: &[u8]) -> (text: Option<&str>)
    ensures
        text is Some <==> valid_utf8(bytes@),
        text matches Some(s) ==> s@ == decode_utf8(bytes@),
{
    core::str::from_utf8(bytes).ok()
}

/// The part of `from..to` that is left when the white space at both ends
/// is taken off.
fn trimmed(line: &str, from: usize, to: usize) -> (range: (usize, usize))
    requires
        from <= to <= line@.len(),
    ensures
        from <= range.0 <= range.1 <= to,
        line@.subrange(range.0 as int, range.1 as int) == trim(
            line@.subrange(from as int, to as int),
        ),
{
    let r1: usize = skip_whitespace(line, from, to);
    let r2: usize = skip_whitespace_back(line, r1, to);
    proof {
        let part = line@.subrange(from as int, to as int);
        assert forall|j: int| 0 <= j < r1 - from implies is_whitespace(part[j]) by {
            assert(part[j] == line@[from + j]);
        }
        lemma_trim_start(part, r1 - from);
        let s = part.skip(r1 - from);
        assert forall|j: int| r2 - r1 <= j < s.len() implies is_whitespace(s[j]) by {
            assert(s[j] == line@[r1 + j]);
        }
        lemma_trim_end(s, r2 - r1);
        assert(s.take(r2 - r1) =~= line@.subrange(r1 as int, r2 as int));
    }
    (r1, r2)
}

/// The part of a line that counts: what is left without leading white
/// space, comment and trailing white space.
fn content(line: &str) -> (range: (usize, usize))
    ensures
        range.0 <= range.1 <= line@.len(),
        line@.subrange(range.0 as int, range.1 as int) == trim_end(
            strip_comment(trim_start(line@)),
        ),
{
    let n: usize = line.unicode_len();
    let a: usize = skip_whitespace(line, 0, n);
    let b: usize = find_char(line, a, n, '#');
    let e: usize = skip_whitespace_back(line, a, b);
    proof {
        lemma_trim_start(line@, a as int);
        let t = line@.skip(a as int);
        assert forall|j: int| 0 <= j < b - a implies t[j] != '#' by {
            assert(t[j] == line@[a + j]);
        }
        lemma_index_of(t, '#', b - a);
        let u = t.take(b - a);
        assert forall|j: int| e - a <= j < u.len() implies is_whitespace(u[j]) by {
            assert(u[j] == line@[a + j]);
        }
        lemma_trim_end(u, e - a);
        assert(u.take(e - a) =~= line@.subrange(a as int, e as int));
    }
    (a, e)
}

/// What a line says.
fn parse_line<'a>(line: &'a str) -> (verb: Option<(&'a str, &'a str)>)
    ensures
        opt_pair_view(verb) == line_verb(line@),
{
    let (a, e) = content(line);
    if a == e {
        return None;
    }
    let ghost l = line@.subrange(a as int, e as int);
    let k: usize = find_char(line, a, e, ' ');
    let name = line.substring_char(a, k);
    proof {
        assert forall|j: int| 0 <= j < k - a implies l[j] != ' ' by {
            assert(l[j] == line@[a + j]);
        }
        lemma_index_of(l, ' ', k - a);
        assert(l.take(k - a) =~= name@);
    }
    let from: usize = if k < e {
        k + 1
    } else {
        e
    };
    let (r1, r2) = trimmed(line, from, e);
    let ghost arg = line@.subrange(r1 as int, r2 as int);
    proof {
        if k < e {
            assert(l.skip(k - a + 1) =~= line@.subrange(from as int, e as int));
        } else {
            assert(Seq::<char>::empty() =~= line@.subrange(from as int, e as int));
        }
    }
    let quoted = r2 - r1 >= 2 && line.get_char(r1) == '\'' && line.get_char(r2 - 1) == '\'';
    let value = if quoted {
        line.substring_char(r1 + 1, r2 - 1)
    } else {
        line.substring_char(r1, r2)
    };
    proof {
        if quoted {
            assert(arg.subrange(1, arg.len() - 1) =~= value@);
        }
    }
    Some((name, value))
}

/// The verbs of a text, in the order of their lines.
pub fn verbs<'a>(text: &'a str) -> (found: Vec<(&'a str, &'a str)>)
    ensures
        pairs(found@) == verbs_of(text@),
{
    let n: usize = text.unicode_len();
    let mut found: Vec<(&'a str, &'a str)> = Vec::new();
    let mut start: usize = 0;
    assert(pairs(found@) =~= Seq::<Verb>::empty());
    assert(text@.skip(0) =~= text@);
    loop
        invariant_except_break
            start <= n,
            pairs(found@) + verbs_of(text@.skip(start as int)) == verbs_of(text@),
        invariant
            n == text@.len(),
        ensures
            pairs(found@) == verbs_of(text@),
        decreases n - start,
    {
        let end: usize = find_char(text, start, n, '\n');
        let line = text.substring_char(start, end);
        let ghost tail = text@.skip(start as int);
        let ghost before = pairs(found@);
        proof {
            assert forall|j: int| 0 <= j < end - start implies tail[j] != '\n' by {
                assert(tail[j] == text@[start + j]);
            }
            lemma_index_of(tail, '\n', end - start);
            assert(tail.take(end - start) =~= line@);
        }
        match parse_line(line) {
            Some(verb) => {
                found.push(verb);
                assert(pairs(found@) =~= before + seq![(verb.0@, verb.1@)]);
            },
            None => {},
        }
        if end >= n {
            assert(pairs(found@) =~= before + verbs_of(tail));
            break ;
        }
        proof {
            assert(tail.skip(end - start + 1) =~= text@.skip(end + 1));
            assert(pairs(found@) + verbs_of(text@.skip(end + 1)) =~= before + verbs_of(tail));
        }
        start = end + 1;
    }
    found
}

/// The arguments of every occurrence of `verb`, joined; `None` where the
/// verb does not occur.
pub fn optional(verbs: &[(&str, &str)], verb: &str, joiner: Option<char>) -> (text: Option<
    String,
>)
    ensures
        opt_view(text) == joined(pairs(verbs@), verb@, joiner),
{
    let n: usize = verbs.len();
    let mut any = false;
    let mut acc = String::new();
    let mut i: usize = 0;
    assert(pairs(verbs@.take(0)) =~= Seq::<Verb>::empty());
    while i < n
        invariant
            i <= n,
            n == verbs@.len(),
            joined(pairs(verbs@.take(i as int)), verb@, joiner) == (if any {
                Some(acc@)
            } else {
                None
            }),
        decreases n - i,
    {
        let name: &str = verbs[i].0;
        let arg: &str = verbs[i].1;
        proof {
            let next = pairs(verbs@.take(i + 1));
            assert(next.drop_last() =~= pairs(verbs@.take(i as int)));
            assert(next.last() == (name@, arg@));
        }
        if str_eq(name, verb) {
            if any {
                match joiner {
                    Some(c) => {
                        push_char(&mut acc, c);
                    },
                    None => {
                        assert(acc@ + separator(joiner) =~= acc@);
                    },
                }
                acc.append(arg);
            } else {
                acc = String::from_str(arg);
                any = true;
            }
        }
        i += 1;
    }
    assert(verbs@.take(n as int) =~= verbs@);
    if any {
        Some(acc)
    } else {
        None
    }
}

/// The joined arguments of a verb that must occur.
pub fn required(verbs: &[(&str, &str)], verb: &'static str, joiner: Option<char>) -> (text: Result<
    String,
    Error,
>)
    ensures
        match joined(pairs(verbs@), verb@, joiner) {
            Some(t) => text matches Ok(s) && s@ == t,
            None => text == Err::<String, Error>(Error::ConfigVerbMissing(verb)),
        },
{
    match optional(verbs, verb, joiner) {
        Some(s) => Ok(s),
        None => Err(Error::ConfigVerbMissing(verb)),
    }
}

/// The settings of the unlocker.
#[derive(Debug)]
pub struct Config {
    pub image: String,
    pub args: String,
    pub log_level: LogLevel,
    pub prompt: Option<String>,
    pub retry_prompt: Option<String>,
    pub sed_locked_msg: Option<String>,
    pub clear_on_retry: bool,
}

impl Config {
    /// The settings are what the verbs say: the path of the next image is
    /// the `image` arguments joined by backslashes, its command line the
    /// `arg` arguments joined by spaces, and each other setting the
    /// argument of its verb.
    pub open spec fn describes(&self, verbs: Seq<Verb>) -> bool {
        &&& joined(verbs, "image"@, Some('\\')) == Some(self.image@)
        &&& joined(verbs, "arg"@, Some(' ')) == Some(self.args@)
        &&& self.log_level == level_of(joined(verbs, "log-level"@, None))
        &&& opt_view(self.prompt) == joined(verbs, "prompt"@, None)
        &&& opt_view(self.retry_prompt) == joined(verbs, "retry-prompt"@, None)
        &&& opt_view(self.sed_locked_msg) == joined(verbs, "sed-locked-msg"@, None)
        &&& self.clear_on_retry == (joined(verbs, "clear-on-retry"@, None) == Some("on"@))
    }

    /// Reads the settings from the bytes of a configuration file. The file
    /// must be UTF-8 and must hold the verbs `arg` and `image`; where both
    /// are missing, `arg` is the one reported.
    pub fn parse(bytes: &[u8]) -> (result: Result<Config, Error>)
        ensures
            !valid_utf8(bytes@) ==> result == Err::<Config, Error>(Error::ConfigNonUtf8),
            valid_utf8(bytes@) ==> {
                let v = verbs_of(decode_utf8(bytes@));
                if joined(v, "arg"@, Some(' ')) is None {
                    result matches Err(Error::ConfigVerbMissing(name)) && name@ == "arg"@
                } else if joined(v, "image"@, Some('\\')) is None {
                    result matches Err(Error::ConfigVerbMissing(name)) && name@ == "image"@
                } else {
                    result matches Ok(config) && config.describes(v)
                }
            },
    {
        let text = match utf8_text(bytes) {
            Some(text) => text,
            None => {
                return Err(Error::ConfigNonUtf8);
            },
        };
        let found = verbs(text);
        let args = match required(found.as_slice(), "arg", Some(' ')) {
            Ok(args) => args,
            Err(e) => {
                return Err(e);
            },
        };
        let image = match required(found.as_slice(), "image", Some('\\')) {
            Ok(image) => image,
            Err(e) => {
                return Err(e);
            },
        };
        let log_level = match optional(found.as_slice(), "log-level", None) {
            None => LogLevel::Info,
            Some(level) => {
                let level = level.as_str();
                if str_eq(level, "error") {
                    LogLevel::Error
                } else if str_eq(level, "warn") {
                    LogLevel::Warn
                } else if str_eq(level, "info") {
                    LogLevel::Info
                } else if str_eq(level, "debug") {
                    LogLevel::Debug
                } else if str_eq(level, "trace") {
                    LogLevel::Trace
                } else {
                    LogLevel::Info
                }
            },
        };
        let clear_on_retry = match optional(found.as_slice(), "clear-on-retry", None) {
            Some(flag) => str_eq(flag.as_str(), "on"),
            None => false,
        };
        Ok(
            Config {
                image,
                args,
                log_level,
                prompt: optional(found.as_slice(), "prompt", None),
                retry_prompt: optional(found.as_slice(), "retry-prompt", None),
                sed_locked_msg: optional(found.as_slice(), "sed-locked-msg", None),
                clear_on_retry,
            },
        )
    }

    /// The command line of the next image as the firmware takes it: the
    /// UCS-2 units of the `arg` setting, then a zero.
    pub fn load_options(&self) -> (result: Result<Vec<u16>, Error>)
        ensures
            match result {
                Ok(units) => ucs2_encodable(self.args@) && units@ == ucs2_units(self.args@),
                Err(e) => !ucs2_encodable(self.args@) && e == Error::ConfigArgsBadUtf16,
            },
    {
        match to_ucs2(self.args.as_str()) {
            Some(units) => Ok(units),
            None => Err(Error::ConfigArgsBadUtf16),
        }
    }

    /// The prompt for the first attempt, or for a retry.
    pub fn prompt_text(&self, retry: bool) -> (text: &str)
        ensures
            text@ == (if retry {
                match self.retry_prompt {
                    Some(p) => p@,
                    None => DEFAULT_RETRY_PROMPT@,
                }
            } else {
                match self.prompt {
                    Some(p) => p@,
                    None => DEFAULT_PROMPT@,
                }
            }),
    {
        if retry {
            match &self.retry_prompt {
                Some(p) => p.as_str(),
                None => DEFAULT_RETRY_PROMPT,
            }
        } else {
            match &self.prompt {
                Some(p) => p.as_str(),
                None => DEFAULT_PROMPT,
            }
        }
    }

    /// The message that is shown when the drive has locked its authority
    /// out.
    pub fn locked_message(&self) -> (text: &str)
        ensures
            text@ == (match self.sed_locked_msg {
                Some(m) => m@,
                None => DEFAULT_LOCKED_MSG@,
            }),
    {
        match &self.sed_locked_msg {
            Some(m) => m.as_str(),
            None => DEFAULT_LOCKED_MSG,
        }
    }
}

} // verus!
