use vstd::prelude::*;
use vstd::utf8::{decode_utf8, valid_utf8};
use crate::encoding::{decode, decoded_text};
use crate::shell::{Platform, ShellFamily};
use crate::text::{chars_of, string_of};

verus! {

/// What `str::to_lowercase` makes of a text.
pub uninterp spec fn lower_of(s: Seq<char>) -> Seq<char>;

/// Relies on str::to_lowercase: the lowercase form depends on the characters
/// alone, and the empty string stays empty.
#[verifier::external_body]
fn lowercase(s: &str) -> (r: String)
    ensures
        r@ == lower_of(s@),
        s@.len() == 0 ==> r@.len() == 0,
{
    s.to_lowercase()
}

/// The marker that the console's code-page switch prints, in lowercase.
pub open spec fn noise_marker() -> Seq<char> {
    "active code page"@
}

/// `needle` occurs in `hay` as a contiguous run.
pub open spec fn occurs_in(needle: Seq<char>, hay: Seq<char>) -> bool {
    exists|i: int|
        0 <= i && i + needle.len() <= hay.len() && #[trigger] hay.subrange(i, i + needle.len())
            == needle
}

/// A stderr line is noise when its lowercase form is empty or holds the marker.
pub open spec fn is_noise(line: Seq<char>) -> bool {
    lower_of(line).len() == 0 || occurs_in(noise_marker(), lower_of(line))
}

/// A line without the carriage return that ended it.
pub open spec fn strip_cr(l: Seq<char>) -> Seq<char> {
    if l.len() > 0 && l.last() == '\r' {
        l.drop_last()
    } else {
        l
    }
}

/// The lines that a text has completed so far, and the unfinished last line.
pub open spec fn line_split(s: Seq<char>) -> (Seq<Seq<char>>, Seq<char>)
    decreases s.len(),
{
    if s.len() == 0 {
        (Seq::empty(), Seq::empty())
    } else {
        let p = line_split(s.drop_last());
        if s.last() == '\n' {
            (p.0.push(strip_cr(p.1)), Seq::empty())
        } else {
            (p.0, p.1.push(s.last()))
        }
    }
}

/// The lines of a text: split at `\n`, a `\r` before it dropped, and no empty
/// line after a final `\n`.
pub open spec fn lines_of(s: Seq<char>) -> Seq<Seq<char>> {
    let p = line_split(s);
    if p.1.len() == 0 {
        p.0
    } else {
        p.0.push(p.1)
    }
}

/// The lines that are not noise, in order.
pub open spec fn kept_lines(ls: Seq<Seq<char>>) -> Seq<Seq<char>>
    decreases ls.len(),
{
    if ls.len() == 0 {
        ls
    } else {
        let k = kept_lines(ls.drop_last());
        if is_noise(ls.last()) {
            k
        } else {
            k.push(ls.last())
        }
    }
}

/// Lines joined with `\n` between them.
pub open spec fn joined(ls: Seq<Seq<char>>) -> Seq<char>
    decreases ls.len(),
{
    if ls.len() == 0 {
        Seq::empty()
    } else if ls.len() == 1 {
        ls[0]
    } else {
        joined(ls.drop_last()) + seq!['\n'] + ls.last()
    }
}

/// Stderr with its noise lines removed.
pub open spec fn cleaned_stderr(s: Seq<char>) -> Seq<char> {
    joined(kept_lines(lines_of(s)))
}

/// Stdout, then the cleaned stderr, with one line break between them when both
/// are non-empty.
pub open spec fn merged(stdout: Seq<char>, cleaned: Seq<char>) -> Seq<char> {
    if cleaned.len() == 0 {
        stdout
    } else if stdout.len() == 0 {
        cleaned
    } else {
        stdout + seq!['\n'] + cleaned
    }
}

/// The text that a one-shot command reports for the bytes it wrote.
pub open spec fn command_text(
    stdout: Seq<u8>,
    stderr: Seq<u8>,
    family: ShellFamily,
    platform: Platform,
) -> Seq<char> {
    merged(
        decoded_text(stdout, family, platform),
        cleaned_stderr(decoded_text(stderr, family, platform)),
    )
}

/// Whether `needle` occurs in `hay` starting at `at`.
fn occurs_at(needle: &Vec<char>, hay: &Vec<char>, at: usize) -> (r: bool)
    requires
        at + needle@.len() <= hay@.len(),
    ensures
        r == (hay@.subrange(at as int, at + needle@.len()) == needle@),
{
    let n = hay.len();
    let mut j: usize = 0;
    while j < needle.len()
        invariant
            n == hay@.len(),
            at + needle@.len() <= hay@.len(),
            j <= needle@.len(),
            forall|k: int| 0 <= k < j ==> hay@[at + k] == needle@[k],
        decreases needle.len() - j,
    {
        if hay[at + j] != needle[j] {
            assert(hay@.subrange(at as int, at + needle@.len())[j as int] != needle@[j as int]);
            return false;
        }
        j += 1;
    }
    assert(hay@.subrange(at as int, at + needle@.len()) =~= needle@);
    true
}

/// Whether `needle` occurs in `hay`.
pub fn occurs(needle: &Vec<char>, hay: &Vec<char>) -> (r: bool)
    ensures
        r == occurs_in(needle@, hay@),
{
    if needle.len() > hay.len() {
        return false;
    }
    let last = hay.len() - needle.len();
    let mut i: usize = 0;
    while i <= last
        invariant
            last == hay@.len() - needle@.len(),
            forall|k: int|
                0 <= k < i ==> #[trigger] hay@.subrange(k, k + needle@.len()) != needle@,
        decreases last + 1 - i,
    {
        if occurs_at(needle, hay, i) {
            return true;
        }
        if i == last {
            return false;
        }
        i += 1;
    }
    false
}

/// Whether a line whose lowercase form is `folded` is noise.
pub fn is_noise_folded(folded: &str) -> (r: bool)
    ensures
        r == (folded@.len() == 0 || occurs_in(noise_marker(), folded@)),
{
    let hay = chars_of(folded);
    if hay.len() == 0 {
        return true;
    }
    let marker = chars_of("active code page");
    occurs(&marker, &hay)
}

/// Whether a stderr line is noise.
pub fn noise_line(line: &str) -> (r: bool)
    ensures
        r == is_noise(line@),
{
    let folded = lowercase(line);
    is_noise_folded(folded.as_str())
}

fn push_all(out: &mut Vec<char>, src: &Vec<char>)
    ensures
        final(out)@ == old(out)@ + src@,
{
    let mut i: usize = 0;
    while i < src.len()
        invariant
            i <= src@.len(),
            out@ == old(out)@ + src@.subrange(0, i as int),
        decreases src.len() - i,
    {
        out.push(src[i]);
        i += 1;
        assert(out@ =~= old(out)@ + src@.subrange(0, i as int));
    }
    assert(src@.subrange(0, src@.len() as int) =~= src@);
}

/// Appends `line` to the joined kept lines unless it is noise.
fn keep_line(out: &mut Vec<char>, any: &mut bool, line: &Vec<char>, Ghost(done): Ghost<
    Seq<Seq<char>>,
>)
    requires
        old(out)@ == joined(kept_lines(done)),
        *old(any) == (kept_lines(done).len() > 0),
    ensures
        final(out)@ == joined(kept_lines(done.push(line@))),
        *final(any) == (kept_lines(done.push(line@)).len() > 0),
{
    let ghost all = done.push(line@);
    assert(all.drop_last() =~= done);
    let text = string_of(line);
    if !noise_line(text.as_str()) {
        let ghost k = kept_lines(done);
        assert(k.push(line@).drop_last() =~= k);
        if *any {
            out.push('\n');
        }
        push_all(out, line);
        *any = true;
    }
}

/// Removes from stderr the lines that are empty or that hold the code-page
/// marker in any case, and joins the rest with `\n`.
pub fn clean_stderr(stderr: &str) -> (r: String)
    ensures
        r@ == cleaned_stderr(stderr@),
{
    let v = chars_of(stderr);
    let mut out: Vec<char> = Vec::new();
    let mut any = false;
    let mut cur: Vec<char> = Vec::new();
    let ghost mut done: Seq<Seq<char>> = Seq::empty();
    let mut i: usize = 0;
    assert(v@.subrange(0, 0) =~= Seq::<char>::empty());
    while i < v.len()
        invariant
            v@ == stderr@,
            i <= v@.len(),
            line_split(v@.subrange(0, i as int)) == (done, cur@),
            out@ == joined(kept_lines(done)),
            any == (kept_lines(done).len() > 0),
        decreases v.len() - i,
    {
        let c = v[i];
        let ghost pre = v@.subrange(0, i as int);
        assert(v@.subrange(0, i + 1).drop_last() =~= pre);
        assert(v@.subrange(0, i + 1).last() == c);
        if c == '\n' {
            if cur.len() > 0 && cur[cur.len() - 1] == '\r' {
                cur.pop();
            }
            assert(cur@ == strip_cr(line_split(pre).1));
            keep_line(&mut out, &mut any, &cur, Ghost(done));
            proof {
                done = done.push(cur@);
            }
            cur = Vec::new();
        } else {
            cur.push(c);
        }
        i += 1;
    }
    assert(v@.subrange(0, v@.len() as int) =~= v@);
    if cur.len() > 0 {
        keep_line(&mut out, &mut any, &cur, Ghost(done));
    }
    string_of(&out)
}

/// Stdout followed by the cleaned stderr, with one line break between them
/// when both are non-empty.
pub fn merge_output(stdout: &str, cleaned: &str) -> (r: String)
    ensures
        r@ == merged(stdout@, cleaned@),
{
    let mut out = chars_of(stdout);
    let rest = chars_of(cleaned);
    if rest.len() > 0 {
        if out.len() > 0 {
            out.push('\n');
        }
        push_all(&mut out, &rest);
    }
    string_of(&out)
}

/// The text that a one-shot command reports: stdout and stderr decoded for the
/// shell family, stderr cleaned of noise, the two merged. The exit status of
/// the command is not part of it: a failing command that printed nothing
/// reports empty text.
pub fn command_output(stdout: &[u8], stderr: &[u8], family: ShellFamily, platform: Platform) -> (r:
    String)
    ensures
        r@ == command_text(stdout@, stderr@, family, platform),
{
    let out = decode(stdout, family, platform);
    let err = decode(stderr, family, platform);
    let cleaned = clean_stderr(err.as_str());
    merge_output(out.as_str(), cleaned.as_str())
}

/// A stderr made only of noise lines cleans to nothing.
pub proof fn lemma_noise_only_cleans_to_empty(stderr: Seq<char>)
    requires
        forall|i: int| 0 <= i < lines_of(stderr).len() ==> is_noise(#[trigger] lines_of(stderr)[i]),
    ensures
        cleaned_stderr(stderr).len() == 0,
{
    lemma_all_noise_kept_empty(lines_of(stderr));
}

proof fn lemma_all_noise_kept_empty(ls: Seq<Seq<char>>)
    requires
        forall|i: int| 0 <= i < ls.len() ==> is_noise(#[trigger] ls[i]),
    ensures
        kept_lines(ls).len() == 0,
    decreases ls.len(),
{
    if ls.len() > 0 {
        let rest = ls.drop_last();
        assert forall|i: int| 0 <= i < rest.len() implies is_noise(#[trigger] rest[i]) by {
            assert(rest[i] == ls[i]);
        }
        lemma_all_noise_kept_empty(rest);
        assert(is_noise(ls[ls.len() - 1]));
    }
}

/// A command that writes nothing, on stdout or stderr, reports empty text,
/// whatever its exit status.
pub proof fn lemma_silent_command_reports_nothing(family: ShellFamily, platform: Platform)
    ensures
        command_text(Seq::empty(), Seq::empty(), family, platform).len() == 0,
{
    assert(line_split(Seq::<char>::empty()) == (Seq::<Seq<char>>::empty(), Seq::<char>::empty()));
    assert(kept_lines(Seq::<Seq<char>>::empty()).len() == 0);
}

} // verus!
