//! Reading aloud with macOS `say`: the voice list it prints, and the
//! progress of the utterance in progress.
use vstd::prelude::*;

use crate::text::{
    chars_of, is_whitespace, is_ws, push_range, string_of, trim, trim_bounds, trim_end,
    trim_end_bound, trimmed,
};

verus! {

/// A system voice.
#[derive(Clone, Debug, PartialEq, Eq)]
pub struct Voice {
    /// The name `say -v` accepts, suffixes such as `(Premium)` included.
    pub name: String,
    /// BCP-47 language tag, such as `en-US`.
    pub lang: String,
}

pub struct VoiceView {
    pub name: Seq<char>,
    pub lang: Seq<char>,
}

impl View for Voice {
    type V = VoiceView;

    open spec fn view(&self) -> VoiceView {
        VoiceView { name: self.name@, lang: self.lang@ }
    }
}

/// The voice handed to `say -v`: the chosen name trimmed; none when no voice
/// is chosen or the name is blank, so that `say` speaks with the system
/// voice.
pub open spec fn voice_arg_spec(voice: Option<Seq<char>>) -> Option<Seq<char>> {
    match voice {
        Some(v) => if trim(v).len() == 0 {
            None
        } else {
            Some(trim(v))
        },
        None => None,
    }
}

pub fn voice_arg(voice: Option<&str>) -> (r: Option<String>)
    ensures
        match r {
            Some(n) => voice_arg_spec(crate::prompts::opt_str_view(voice)) == Some(n@),
            None => voice_arg_spec(crate::prompts::opt_str_view(voice)) is None,
        },
{
    match voice {
        Some(v) => {
            let name = trimmed(v);
            if name.as_str().is_empty() {
                None
            } else {
                Some(name)
            }
        },
        None => None,
    }
}

/// Progress of one utterance.
#[derive(Clone, Copy, Debug, PartialEq, Eq, Structural)]
pub enum Poll {
    Running,
    Done,
    /// `say` exited unsuccessfully, most often because the voice is gone.
    Failed,
}

#[verifier::external_type_specification]
#[verifier::external_body]
pub struct ExChild(tokio::process::Child);

/// The utterance in progress; `generation` tells it from the ones that
/// replaced it.
pub struct Speaking {
    pub generation: u64,
    pub child: tokio::process::Child,
}

/// What a look at the `say` process found.
#[derive(Clone, Copy, Debug, PartialEq, Eq, Structural)]
pub enum ExitCheck {
    /// Still speaking.
    Running,
    /// Exited; `true` when successfully.
    Exited(bool),
    /// The process could not be looked at, having been reaped elsewhere.
    Unknown,
}

/// `tokio::process::Child::try_wait`, with an exit status reduced to whether
/// it was a success. The process decides the outcome, so nothing is claimed
/// of it.
#[verifier::external_body]
fn check_exit(child: &mut tokio::process::Child) -> ExitCheck {
    match child.try_wait() {
        Ok(Some(status)) => ExitCheck::Exited(status.success()),
        Ok(None) => ExitCheck::Running,
        Err(_) => ExitCheck::Unknown,
    }
}

/// The progress a look at the process reports, and whether the utterance is
/// over. Only an unsuccessful exit is a failure; a process that can no
/// longer be looked at is over rather than left hanging.
pub open spec fn poll_after_check(check: ExitCheck) -> (Poll, bool) {
    match check {
        ExitCheck::Running => (Poll::Running, false),
        ExitCheck::Exited(success) => (
            if success {
                Poll::Done
            } else {
                Poll::Failed
            },
            true,
        ),
        ExitCheck::Unknown => (Poll::Done, true),
    }
}

pub fn after_check(check: ExitCheck) -> (r: (Poll, bool))
    ensures
        r == poll_after_check(check),
{
    match check {
        ExitCheck::Running => (Poll::Running, false),
        ExitCheck::Exited(success) => (
            if success {
                Poll::Done
            } else {
                Poll::Failed
            },
            true,
        ),
        ExitCheck::Unknown => (Poll::Done, true),
    }
}

/// The progress of utterance `generation`. One that was stopped (its slot
/// emptied) or replaced by a later one is done, so stopping is never taken
/// for a failure; otherwise its process is looked at, and a finished
/// utterance leaves the slot.
pub fn poll(slot: &mut Option<Speaking>, generation: u64) -> (r: Poll)
    ensures
        match *old(slot) {
            None => r == Poll::Done && *final(slot) == *old(slot),
            Some(s) => if s.generation != generation {
                r == Poll::Done && *final(slot) == *old(slot)
            } else {
                &&& (r == Poll::Running) == (*final(slot) is Some)
                &&& *final(slot) matches Some(t) ==> t.generation == generation
            },
        },
{
    match slot.take() {
        None => Poll::Done,
        Some(mut speaking) => {
            if speaking.generation != generation {
                *slot = Some(speaking);
                return Poll::Done;
            }
            let check = check_exit(&mut speaking.child);
            let (progress, over) = after_check(check);
            if !over {
                *slot = Some(speaking);
            }
            progress
        },
    }
}

/// `s` up to its first `c`, or all of it.
pub open spec fn before_char(s: Seq<char>, c: char) -> Seq<char>
    decreases s.len(),
{
    if s.len() == 0 {
        s
    } else if s[0] == c {
        Seq::empty()
    } else {
        seq![s[0]] + before_char(s.drop_first(), c)
    }
}

/// Index of the last whitespace character of `s` below `end`.
pub open spec fn last_ws_before(s: Seq<char>, end: int) -> Option<int>
    decreases end,
{
    if end <= 0 || end > s.len() {
        None
    } else if is_ws(s[end - 1]) {
        Some(end - 1)
    } else {
        last_ws_before(s, end - 1)
    }
}

/// `s` with `_` turned into `-`.
pub open spec fn dashed(s: Seq<char>) -> Seq<char> {
    s.map_values(|c: char| if c == '_' { '-' } else { c })
}

/// A line of `say -v '?'`: the name, the language, then `#` and a sample.
/// Names hold spaces and parentheses and the columns are not fixed, so the
/// language is the last whitespace-separated word before `#`, and the rest,
/// trimmed, is the name. A line whose last word has no `_` (so is no
/// language), or whose name is empty, is no voice.
pub open spec fn voice_line_spec(line: Seq<char>) -> Option<VoiceView> {
    let head = trim_end(before_char(line, '#'));
    match last_ws_before(head, head.len() as int) {
        None => None,
        Some(k) => {
            let name = trim(head.take(k));
            let lang = head.skip(k + 1);
            if name.len() == 0 || !lang.contains('_') {
                None
            } else {
                Some(VoiceView { name, lang: dashed(lang) })
            }
        },
    }
}

proof fn lemma_before_char_index(s: Seq<char>, c: char, i: int)
    requires
        0 <= i <= s.len(),
        forall|j: int| 0 <= j < i ==> s[j] != c,
        i == s.len() || s[i] == c,
    ensures
        before_char(s, c) == s.take(i),
    decreases s.len(),
{
    if s.len() > 0 && s[0] != c {
        lemma_before_char_index(s.drop_first(), c, i - 1);
        assert(seq![s[0]] + s.drop_first().take(i - 1) =~= s.take(i));
    } else if s.len() > 0 {
        assert(s.take(i) =~= Seq::<char>::empty());
    } else {
        assert(s.take(i) =~= s);
    }
}

pub fn parse_voice_line(line: &str) -> (r: Option<Voice>)
    ensures
        match r {
            Some(v) => voice_line_spec(line@) == Some(v@),
            None => voice_line_spec(line@) is None,
        },
{
    let v = chars_of(line);
    // Up to the first `#`.
    let mut cut: usize = 0;
    while cut < v.len() && v[cut] != '#'
        invariant
            cut <= v.len(),
            forall|j: int| 0 <= j < cut ==> v@[j] != '#',
        decreases v.len() - cut,
    {
        cut += 1;
    }
    proof {
        lemma_before_char_index(v@, '#', cut as int);
        assert(v@.take(cut as int) =~= v@.subrange(0, cut as int));
    }
    let end = trim_end_bound(&v, 0, cut);
    let ghost head = v@.subrange(0, end as int);
    // The last whitespace before `end`.
    let mut k = end;
    while k > 0 && !is_whitespace(v[k - 1])
        invariant
            k <= end <= v.len(),
            head == v@.subrange(0, end as int),
            last_ws_before(head, end as int) == last_ws_before(head, k as int),
        decreases k,
    {
        k -= 1;
    }
    if k == 0 {
        return None;
    }
    let split = k - 1;
    assert(last_ws_before(head, end as int) == Some(split as int));
    let (nlo, nhi) = trim_bounds(&v, 0, split);
    assert(head.take(split as int) =~= v@.subrange(0, split as int));
    let ghost lang = head.skip(split + 1);
    assert(lang =~= v@.subrange(split + 1, end as int));
    if nlo == nhi {
        return None;
    }
    let mut has_underscore = false;
    let mut dashed_lang: Vec<char> = Vec::new();
    let mut j = split + 1;
    while j < end
        invariant
            split + 1 <= j <= end <= v.len(),
            lang == v@.subrange(split + 1, end as int),
            has_underscore == v@.subrange(split + 1, j as int).contains('_'),
            dashed_lang@ == dashed(v@.subrange(split + 1, j as int)),
        decreases end - j,
    {
        let c = v[j];
        let ghost prev = v@.subrange(split + 1, j as int);
        assert(v@.subrange(split + 1, j + 1) =~= prev.push(c));
        if c == '_' {
            has_underscore = true;
            dashed_lang.push('-');
            assert(prev.push(c)[prev.len() as int] == '_');
        } else {
            dashed_lang.push(c);
            assert(prev.push(c).contains('_') ==> prev.contains('_')) by {
                if prev.push(c).contains('_') {
                    let m = choose|m: int| 0 <= m < prev.push(c).len() && prev.push(c)[m] == '_';
                    assert(m < prev.len());
                    assert(prev[m] == '_');
                }
            }
        }
        assert(dashed_lang@ =~= dashed(v@.subrange(split + 1, j + 1)));
        j += 1;
    }
    if !has_underscore {
        return None;
    }
    let mut name = String::new();
    push_range(&mut name, &v, nlo, nhi);
    Some(Voice { name, lang: string_of(&dashed_lang) })
}

// ------------------------------------------------------------------ whole listings

/// The lines of `s` read left to right: the completed lines, and the line
/// still open.
pub open spec fn split_lines(s: Seq<char>) -> (Seq<Seq<char>>, Seq<char>)
    decreases s.len(),
{
    if s.len() == 0 {
        (Seq::empty(), Seq::empty())
    } else {
        let (done, open) = split_lines(s.drop_last());
        if s.last() == '\n' {
            (done.push(open), Seq::empty())
        } else {
            (done, open.push(s.last()))
        }
    }
}

/// A line without one trailing carriage return.
pub open spec fn without_cr(line: Seq<char>) -> Seq<char> {
    if line.len() > 0 && line.last() == '\r' {
        line.drop_last()
    } else {
        line
    }
}

/// The lines of `s` as `str::lines` yields them: split at `\n`, one trailing
/// `\r` dropped from each, no empty line after a final `\n`.
pub open spec fn lines_of(s: Seq<char>) -> Seq<Seq<char>> {
    let (done, open) = split_lines(s);
    let all = if open.len() == 0 {
        done
    } else {
        done.push(open)
    };
    all.map_values(|l: Seq<char>| without_cr(l))
}

/// The voices of the lines in `lines`, in order.
pub open spec fn voices_of(lines: Seq<Seq<char>>) -> Seq<VoiceView>
    decreases lines.len(),
{
    if lines.len() == 0 {
        Seq::empty()
    } else {
        match voice_line_spec(lines.last()) {
            Some(v) => voices_of(lines.drop_last()).push(v),
            None => voices_of(lines.drop_last()),
        }
    }
}

pub open spec fn voices_view(v: Seq<Voice>) -> Seq<VoiceView> {
    v.map_values(|x: Voice| x@)
}

fn push_line_voice(voices: &mut Vec<Voice>, line: &Vec<char>)
    ensures
        voices_view(final(voices)@) == match voice_line_spec(without_cr(line@)) {
            Some(v) => voices_view(old(voices)@).push(v),
            None => voices_view(old(voices)@),
        },
{
    let n = if line.len() > 0 && line[line.len() - 1] == '\r' {
        line.len() - 1
    } else {
        line.len()
    };
    let mut s = String::new();
    push_range(&mut s, line, 0, n);
    assert(line@.subrange(0, n as int) =~= without_cr(line@));
    match parse_voice_line(s.as_str()) {
        Some(v) => {
            let ghost before = voices_view(voices@);
            voices.push(v);
            assert(voices_view(voices@) =~= before.push(v@));
        },
        None => {},
    }
}

/// Every voice `say -v '?'` lists in `output`; lines that are no voice are
/// skipped.
pub fn parse_voice_list(output: &str) -> (r: Vec<Voice>)
    ensures
        voices_view(r@) == voices_of(lines_of(output@)),
{
    let v = chars_of(output);
    let mut voices: Vec<Voice> = Vec::new();
    let mut open: Vec<char> = Vec::new();
    let ghost mut done: Seq<Seq<char>> = Seq::empty();
    let mut i: usize = 0;
    assert(v@.take(0) =~= Seq::<char>::empty());
    while i < v.len()
        invariant
            i <= v.len(),
            split_lines(v@.take(i as int)) == (done, open@),
            voices_view(voices@) == voices_of(done.map_values(|l: Seq<char>| without_cr(l))),
        decreases v.len() - i,
    {
        assert(v@.take(i + 1).drop_last() =~= v@.take(i as int));
        assert(v@.take(i + 1).last() == v@[i as int]);
        if v[i] == '\n' {
            let ghost prev = done.map_values(|l: Seq<char>| without_cr(l));
            push_line_voice(&mut voices, &open);
            proof {
                let next = done.push(open@);
                assert(next.map_values(|l: Seq<char>| without_cr(l)) =~= prev.push(
                    without_cr(open@),
                ));
                assert(prev.push(without_cr(open@)).drop_last() =~= prev);
                done = next;
            }
            open = Vec::new();
            assert(open@ =~= Seq::<char>::empty());
        } else {
            open.push(v[i]);
        }
        i += 1;
    }
    assert(v@.take(v.len() as int) =~= v@);
    if open.len() > 0 {
        let ghost prev = done.map_values(|l: Seq<char>| without_cr(l));
        push_line_voice(&mut voices, &open);
        assert(done.push(open@).map_values(|l: Seq<char>| without_cr(l)) =~= prev.push(
            without_cr(open@),
        ));
        assert(prev.push(without_cr(open@)).drop_last() =~= prev);
    }
    voices
}

} // verus!
