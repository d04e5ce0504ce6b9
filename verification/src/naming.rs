//! File names for captures: `<process>_<stamp>`, where the stamp leads with
//! the capture time and ends in a short random guard.

use rand::Rng;
use vstd::prelude::*;

use crate::text::{dec_padded, push_char, push_dec_padded};

verus! {

/// Length of the collision guard after the timestamp.
pub const GUARD: usize = 4;

/// Length of the suffix of a namer made by [`OutputNamer::random`].
pub const RANDOM_SUFFIX: usize = 10;

/// ASCII letters and digits: what the random guard is drawn from.
pub open spec fn is_ascii_alphanumeric(c: char) -> bool {
    ('0' <= c && c <= '9') || ('A' <= c && c <= 'Z') || ('a' <= c && c <= 'z')
}

/// `len` characters, each drawn uniformly from ASCII letters and digits.
///
/// Calls `rand`'s `Alphanumeric` distribution on the thread-local generator.
/// The contract claims only what holds of every draw: the length and that
/// every character is an ASCII letter or digit.
#[verifier::external_body]
fn random_alphanumeric(len: usize) -> (res: String)
    ensures
        res@.len() == len,
        forall|i: int| 0 <= i < len ==> is_ascii_alphanumeric(#[trigger] res@[i]),
{
    rand::rng().sample_iter(rand::distr::Alphanumeric).take(len).map(char::from).collect()
}

/// A moment in local time, as the capture was taken.
#[derive(Clone, Copy, Debug, PartialEq, Eq, Structural)]
pub struct Timestamp {
    pub year: u16,
    pub month: u8,
    pub day: u8,
    pub hour: u8,
    pub minute: u8,
    pub second: u8,
}

/// `2026-08-27_14-32-05`: sorts chronologically as plain text, and every
/// separator is legal in a Windows filename. A year past 9999 carries a `+`,
/// as `%Y` writes it.
pub open spec fn stamp_text(when: Timestamp) -> Seq<char> {
    let year = if when.year > 9999 {
        seq!['+'] + dec_padded(when.year as nat, 4)
    } else {
        dec_padded(when.year as nat, 4)
    };
    year + seq!['-'] + dec_padded(when.month as nat, 2) + seq!['-'] + dec_padded(
        when.day as nat,
        2,
    ) + seq!['_'] + dec_padded(when.hour as nat, 2) + seq!['-'] + dec_padded(
        when.minute as nat,
        2,
    ) + seq!['-'] + dec_padded(when.second as nat, 2)
}

/// The folder a capture taken in `month` of `year` is filed under: `2026-08`.
pub open spec fn month_folder_text(year: nat, month: nat) -> Seq<char> {
    dec_padded(year, 4) + seq!['-'] + dec_padded(month, 2)
}

/// The month folder for `year` and `month`.
pub fn month_folder(year: u16, month: u16) -> (res: String)
    ensures
        res@ == month_folder_text(year as nat, month as nat),
{
    let mut folder = String::new();
    push_dec_padded(&mut folder, year as u64, 4);
    push_char(&mut folder, '-');
    push_dec_padded(&mut folder, month as u64, 2);
    assert(folder@ =~= month_folder_text(year as nat, month as nat));
    folder
}

/// Characters Windows refuses in a file name.
pub open spec fn is_reserved(c: char) -> bool {
    c == '<' || c == '>' || c == ':' || c == '"' || c == '/' || c == '\\' || c == '|' || c == '?'
        || c == '*'
}

/// Characters trimmed from both ends of a process name.
pub open spec fn is_trimmed(c: char) -> bool {
    c == ' ' || c == '.'
}

pub open spec fn sanitize_char(c: char) -> char {
    if is_reserved(c) {
        '_'
    } else {
        c
    }
}

pub open spec fn sanitize(name: Seq<char>) -> Seq<char> {
    name.map_values(|c: char| sanitize_char(c))
}

/// `s` without its leading spaces and dots.
pub open spec fn trim_start(s: Seq<char>) -> Seq<char>
    decreases s.len(),
{
    if s.len() > 0 && is_trimmed(s[0]) {
        trim_start(s.drop_first())
    } else {
        s
    }
}

/// `s` without its trailing spaces and dots.
pub open spec fn trim_end(s: Seq<char>) -> Seq<char>
    decreases s.len(),
{
    if s.len() > 0 && is_trimmed(s.last()) {
        trim_end(s.drop_last())
    } else {
        s
    }
}

/// The process name as it appears in a file name: reserved characters made
/// underscores, spaces and dots trimmed from the ends, and `Screen` when
/// nothing is left.
pub open spec fn name_part(process_name: Seq<char>) -> Seq<char> {
    let trimmed = trim_end(trim_start(sanitize(process_name)));
    if trimmed.len() == 0 {
        "Screen"@
    } else {
        trimmed
    }
}

/// The file stem for a capture of `process_name` with `stamp`.
pub open spec fn file_stem_text(process_name: Seq<char>, stamp: Seq<char>) -> Seq<char> {
    name_part(process_name) + seq!['_'] + stamp
}

proof fn lemma_trim_start_skip(s: Seq<char>, i: int)
    requires
        0 <= i <= s.len(),
        forall|j: int| 0 <= j < i ==> is_trimmed(#[trigger] s[j]),
    ensures
        trim_start(s) == trim_start(s.subrange(i, s.len() as int)),
    decreases i,
{
    if i > 0 {
        assert(s.drop_first() =~= s.subrange(1, s.len() as int));
        lemma_trim_start_skip(s.drop_first(), i - 1);
        assert(s.drop_first().subrange(i - 1, s.drop_first().len() as int) =~= s.subrange(
            i,
            s.len() as int,
        ));
    } else {
        assert(s =~= s.subrange(0, s.len() as int));
    }
}

proof fn lemma_trim_end_skip(s: Seq<char>, i: int)
    requires
        0 <= i <= s.len(),
        forall|j: int| i <= j < s.len() ==> is_trimmed(#[trigger] s[j]),
    ensures
        trim_end(s) == trim_end(s.subrange(0, i)),
    decreases s.len() - i,
{
    if i < s.len() {
        assert(s.drop_last() =~= s.subrange(0, s.len() - 1));
        lemma_trim_end_skip(s.drop_last(), i);
        assert(s.drop_last().subrange(0, i) =~= s.subrange(0, i));
    } else {
        assert(s =~= s.subrange(0, i));
    }
}

/// The stem of every capture file: `<process>_<stamp>`.
#[derive(Debug, PartialEq, Eq)]
pub struct OutputNamer {
    stamp: String,
}

impl Clone for OutputNamer {
    fn clone(&self) -> (res: Self)
        ensures
            res == *self,
    {
        OutputNamer { stamp: self.stamp.clone() }
    }
}

impl OutputNamer {
    /// The stamp every stem this namer makes ends in.
    pub closed spec fn stamp(&self) -> Seq<char> {
        self.stamp@
    }

    /// The stamp for a capture taken at `when`: the time, then a four
    /// character guard that keeps two captures in one second apart.
    pub fn at(when: &Timestamp) -> (res: Self)
        ensures
            res.stamp().len() == stamp_text(*when).len() + 1 + GUARD,
            res.stamp().subrange(0, stamp_text(*when).len() as int) == stamp_text(*when),
            res.stamp()[stamp_text(*when).len() as int] == '_',
            forall|i: int|
                stamp_text(*when).len() < i < res.stamp().len() ==> is_ascii_alphanumeric(
                    #[trigger] res.stamp()[i],
                ),
    {
        let guard = random_alphanumeric(GUARD);
        let namer = OutputNamer::with_guard(when, guard.as_str());
        proof {
            let time = stamp_text(*when);
            assert(namer.stamp().subrange(0, time.len() as int) =~= time);
            assert forall|i: int| time.len() < i < namer.stamp().len() implies is_ascii_alphanumeric(
                #[trigger] namer.stamp()[i],
            ) by {
                assert(namer.stamp()[i] == guard@[i - time.len() - 1]);
            }
        }
        namer
    }

    /// The stamp for a capture taken at `when` with `guard` as its collision
    /// guard: the time, `_`, then the guard.
    pub fn with_guard(when: &Timestamp, guard: &str) -> (res: Self)
        ensures
            res.stamp() == stamp_text(*when) + seq!['_'] + guard@,
    {
        let mut stamp = String::new();
        if when.year > 9999 {
            push_char(&mut stamp, '+');
        }
        push_dec_padded(&mut stamp, when.year as u64, 4);
        push_char(&mut stamp, '-');
        push_dec_padded(&mut stamp, when.month as u64, 2);
        push_char(&mut stamp, '-');
        push_dec_padded(&mut stamp, when.day as u64, 2);
        push_char(&mut stamp, '_');
        push_dec_padded(&mut stamp, when.hour as u64, 2);
        push_char(&mut stamp, '-');
        push_dec_padded(&mut stamp, when.minute as u64, 2);
        push_char(&mut stamp, '-');
        push_dec_padded(&mut stamp, when.second as u64, 2);
        assert(stamp@ =~= stamp_text(*when));
        push_char(&mut stamp, '_');
        stamp.append(guard);
        assert(stamp@ =~= stamp_text(*when) + seq!['_'] + guard@);
        OutputNamer { stamp }
    }

    /// A namer whose stamp is ten random letters and digits.
    pub fn random() -> (res: Self)
        ensures
            res.stamp().len() == RANDOM_SUFFIX,
            forall|i: int| 0 <= i < RANDOM_SUFFIX ==> is_ascii_alphanumeric(#[trigger] res.stamp()[i]),
    {
        OutputNamer { stamp: random_alphanumeric(RANDOM_SUFFIX) }
    }

    /// Pins the stamp so a test can assert an exact filename.
    pub fn for_test(stamp: &str) -> (res: Self)
        ensures
            res.stamp() == stamp@,
    {
        OutputNamer { stamp: String::from_str(stamp) }
    }

    /// `<process>_<stamp>`, with the process name made safe for a file name.
    pub fn file_stem(&self, process_name: &str) -> (res: String)
        ensures
            res@ == file_stem_text(process_name@, self.stamp()),
    {
        let n = process_name.unicode_len();
        let mut cleaned: Vec<char> = Vec::new();
        let mut i: usize = 0;
        while i < n
            invariant
                n == process_name@.len(),
                i <= n,
                cleaned@ == sanitize(process_name@.subrange(0, i as int)),
            decreases n - i,
        {
            let c = process_name.get_char(i);
            let safe = if c == '<' || c == '>' || c == ':' || c == '"' || c == '/' || c == '\\'
                || c == '|' || c == '?' || c == '*' {
                '_'
            } else {
                c
            };
            cleaned.push(safe);
            i = i + 1;
            assert(cleaned@ =~= sanitize(process_name@.subrange(0, i as int)));
        }
        assert(process_name@.subrange(0, n as int) =~= process_name@);
        let ghost clean = cleaned@;
        let mut start: usize = 0;
        while start < n && (cleaned[start] == ' ' || cleaned[start] == '.')
            invariant
                clean == cleaned@,
                clean.len() == n,
                start <= n,
                forall|j: int| 0 <= j < start ==> is_trimmed(#[trigger] clean[j]),
            decreases n - start,
        {
            start = start + 1;
        }
        let mut end: usize = n;
        while end > start && (cleaned[end - 1] == ' ' || cleaned[end - 1] == '.')
            invariant
                clean == cleaned@,
                clean.len() == n,
                start <= end <= n,
                forall|j: int| end <= j < n ==> is_trimmed(#[trigger] clean[j]),
            decreases end - start,
        {
            end = end - 1;
        }
        proof {
            lemma_trim_start_skip(clean, start as int);
            let rest = clean.subrange(start as int, n as int);
            if start < n {
                assert(!is_trimmed(rest[0]));
            }
            assert(trim_start(rest) == rest);
            lemma_trim_end_skip(rest, end - start);
            let core = rest.subrange(0, end - start);
            if end > start {
                assert(!is_trimmed(core.last()));
            }
            assert(trim_end(core) == core);
            assert(core =~= clean.subrange(start as int, end as int));
        }
        let mut out = String::new();
        if start == end {
            out.append("Screen");
        } else {
            let mut k: usize = start;
            while k < end
                invariant
                    clean == cleaned@,
                    clean.len() == n,
                    start <= k <= end <= n,
                    out@ == clean.subrange(start as int, k as int),
                decreases end - k,
            {
                push_char(&mut out, cleaned[k]);
                k = k + 1;
                assert(out@ =~= clean.subrange(start as int, k as int));
            }
        }
        push_char(&mut out, '_');
        out.append(self.stamp.as_str());
        out
    }
}

proof fn lemma_trim_start_is_suffix(s: Seq<char>)
    ensures
        exists|i: int| 0 <= i <= s.len() && #[trigger] s.subrange(i, s.len() as int) == trim_start(s),
        trim_start(s).len() > 0 ==> !is_trimmed(trim_start(s)[0]),
    decreases s.len(),
{
    if s.len() > 0 && is_trimmed(s[0]) {
        lemma_trim_start_is_suffix(s.drop_first());
        let i = choose|i: int|
            0 <= i <= s.drop_first().len() && #[trigger] s.drop_first().subrange(
                i,
                s.drop_first().len() as int,
            ) == trim_start(s.drop_first());
        assert(s.subrange(i + 1, s.len() as int) =~= s.drop_first().subrange(
            i,
            s.drop_first().len() as int,
        ));
    } else {
        assert(s.subrange(0, s.len() as int) =~= s);
    }
}

proof fn lemma_trim_end_is_prefix(s: Seq<char>)
    ensures
        exists|i: int| 0 <= i <= s.len() && #[trigger] s.subrange(0, i) == trim_end(s),
        trim_end(s).len() > 0 ==> !is_trimmed(trim_end(s).last()),
    decreases s.len(),
{
    if s.len() > 0 && is_trimmed(s.last()) {
        lemma_trim_end_is_prefix(s.drop_last());
        let i = choose|i: int|
            0 <= i <= s.drop_last().len() && #[trigger] s.drop_last().subrange(0, i) == trim_end(
                s.drop_last(),
            );
        assert(s.subrange(0, i) =~= s.drop_last().subrange(0, i));
    } else {
        assert(s.subrange(0, s.len() as int) =~= s);
    }
}

proof fn lemma_trim_end_keeps_front(s: Seq<char>)
    requires
        s.len() > 0 ==> !is_trimmed(s[0]),
    ensures
        trim_end(s).len() > 0 ==> !is_trimmed(trim_end(s)[0]),
    decreases s.len(),
{
    if s.len() > 0 && is_trimmed(s.last()) {
        if s.drop_last().len() > 0 {
            assert(s.drop_last()[0] == s[0]);
        }
        lemma_trim_end_keeps_front(s.drop_last());
    }
}

/// The process part of every capture file name is safe on Windows: it is
/// never empty, holds none of the characters Windows refuses, and neither
/// starts nor ends with a space or a dot.
pub proof fn lemma_name_part_is_safe(process_name: Seq<char>)
    ensures
        name_part(process_name).len() > 0,
        forall|i: int|
            0 <= i < name_part(process_name).len() ==> !is_reserved(
                #[trigger] name_part(process_name)[i],
            ),
        !is_trimmed(name_part(process_name)[0]),
        !is_trimmed(name_part(process_name).last()),
{
    let clean = sanitize(process_name);
    assert forall|i: int| 0 <= i < clean.len() implies !is_reserved(#[trigger] clean[i]) by {}
    lemma_trim_start_is_suffix(clean);
    let front = trim_start(clean);
    let i = choose|i: int| 0 <= i <= clean.len() && #[trigger] clean.subrange(i, clean.len() as int) == front;
    lemma_trim_end_is_prefix(front);
    lemma_trim_end_keeps_front(front);
    let both = trim_end(front);
    let j = choose|j: int| 0 <= j <= front.len() && #[trigger] front.subrange(0, j) == both;
    if both.len() == 0 {
        reveal_strlit("Screen");
    } else {
        assert forall|k: int| 0 <= k < both.len() implies !is_reserved(#[trigger] both[k]) by {
            assert(both[k] == front[k]);
            assert(front[k] == clean[i + k]);
        }
    }
}

/// A stem is the name part, one underscore, and the namer's whole stamp, so
/// the random guard survives whatever dots the process name holds.
pub proof fn lemma_stem_ends_with_stamp(process_name: Seq<char>, stamp: Seq<char>)
    ensures
        file_stem_text(process_name, stamp).subrange(
            file_stem_text(process_name, stamp).len() - stamp.len(),
            file_stem_text(process_name, stamp).len() as int,
        ) == stamp,
        file_stem_text(process_name, stamp)[name_part(process_name).len() as int] == '_',
{
    let stem = file_stem_text(process_name, stamp);
    assert(stem.subrange(stem.len() - stamp.len(), stem.len() as int) =~= stamp);
}

} // verus!
