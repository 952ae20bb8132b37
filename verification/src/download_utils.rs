use vstd::prelude::*;
use vstd::string::{StrSliceExecFns, StringExecFns};
use crate::ip_parse::chars_of;
use crate::text::{is_prefix, push_char, split_on, split_on_exec, window_has_prefix};

verus! {

/// The distinguished non-error outcome of a download: the candidate
/// version is already installed on disk, so nothing was fetched.
#[derive(Debug)]
pub struct AlreadyDownloaded;

/// Whitespace as headers carry it.
pub open spec fn is_space(c: char) -> bool {
    c == ' ' || c == '\t' || c == '\n' || c == '\r'
}

/// Whether the character is whitespace.
fn is_space_exec(c: char) -> (b: bool)
    ensures
        b == is_space(c),
{
    c == ' ' || c == '\t' || c == '\n' || c == '\r'
}

/// The string without its leading whitespace.
pub open spec fn strip_leading_spaces(s: Seq<char>) -> Seq<char>
    decreases s.len(),
{
    if s.len() > 0 && is_space(s[0]) {
        strip_leading_spaces(s.drop_first())
    } else {
        s
    }
}

/// The string without its trailing whitespace.
pub open spec fn strip_trailing_spaces(s: Seq<char>) -> Seq<char>
    decreases s.len(),
{
    if s.len() > 0 && is_space(s.last()) {
        strip_trailing_spaces(s.drop_last())
    } else {
        s
    }
}

/// The string without leading or trailing whitespace.
pub open spec fn trim_spaces(s: Seq<char>) -> Seq<char> {
    strip_trailing_spaces(strip_leading_spaces(s))
}

/// The string without its leading copies of one character.
pub open spec fn strip_leading_char(s: Seq<char>, c: char) -> Seq<char>
    decreases s.len(),
{
    if s.len() > 0 && s[0] == c {
        strip_leading_char(s.drop_first(), c)
    } else {
        s
    }
}

/// The string without its trailing copies of one character.
pub open spec fn strip_trailing_char(s: Seq<char>, c: char) -> Seq<char>
    decreases s.len(),
{
    if s.len() > 0 && s.last() == c {
        strip_trailing_char(s.drop_last(), c)
    } else {
        s
    }
}

/// The string without its leading repetitions of a pattern.
pub open spec fn strip_prefix_all(s: Seq<char>, p: Seq<char>) -> Seq<char>
    decreases s.len(),
{
    if p.len() > 0 && is_prefix(p, s) && p.len() <= s.len() {
        strip_prefix_all(s.skip(p.len() as int), p)
    } else {
        s
    }
}

/// The string without its trailing repetitions of a pattern.
pub open spec fn strip_suffix_all(s: Seq<char>, suf: Seq<char>) -> Seq<char>
    decreases s.len(),
{
    if suf.len() > 0 && suf.len() <= s.len() && s.subrange(
        s.len() - suf.len(),
        s.len() as int,
    ) == suf {
        strip_suffix_all(s.subrange(0, s.len() - suf.len()), suf)
    } else {
        s
    }
}

/// What one `;`-separated segment of a content-disposition header names:
/// after trimming, a segment starting with the filename key yields what
/// follows the key, unquoted.
pub open spec fn filename_of_segment(seg: Seq<char>) -> Option<Seq<char>> {
    let t = trim_spaces(seg);
    if is_prefix("filename="@, t) {
        Some(
            strip_trailing_char(
                strip_leading_char(strip_prefix_all(t, "filename="@), '"'),
                '"',
            ),
        )
    } else {
        None
    }
}

/// The first segment that names a file.
pub open spec fn first_filename(segs: Seq<Seq<char>>) -> Option<Seq<char>>
    decreases segs.len(),
{
    if segs.len() == 0 {
        None
    } else {
        match filename_of_segment(segs[0]) {
            Some(f) => Some(f),
            None => first_filename(segs.drop_first()),
        }
    }
}

/// The filename a content-disposition header carries, if any.
pub open spec fn spec_content_disposition_filename(h: Seq<char>) -> Option<Seq<char>> {
    first_filename(split_on(h, ';'))
}

/// Extract the filename from one segment of the header.
fn segment_filename(seg: &String) -> (r: Option<String>)
    ensures
        match r {
            Some(f) => filename_of_segment(seg@) == Some(f@),
            None => filename_of_segment(seg@) is None,
        },
{
    let cs = chars_of(seg.as_str());
    let n = cs.len();
    let mut lo: usize = 0;
    let mut hi: usize = n;
    proof {
        assert(cs@.subrange(0, n as int) =~= cs@);
    }
    // trim leading whitespace
    while lo < hi && is_space_exec(cs[lo])
        invariant
            lo <= hi <= n,
            n == cs@.len(),
            cs@ == seg@,
            strip_leading_spaces(seg@) == strip_leading_spaces(
                cs@.subrange(lo as int, hi as int),
            ),
            hi == n,
        decreases hi - lo,
    {
        proof {
            let w = cs@.subrange(lo as int, hi as int);
            assert(w[0] == cs@[lo as int]);
            assert(w.drop_first() =~= cs@.subrange(lo + 1, hi as int));
        }
        lo = lo + 1;
    }
    proof {
        let w = cs@.subrange(lo as int, hi as int);
        assert(strip_leading_spaces(w) == w);
        assert(strip_leading_spaces(seg@) == cs@.subrange(lo as int, hi as int));
    }
    let ghost after_lead = cs@.subrange(lo as int, hi as int);
    // trim trailing whitespace
    while hi > lo && is_space_exec(cs[hi - 1])
        invariant
            lo <= hi <= n,
            n == cs@.len(),
            cs@ == seg@,
            after_lead == strip_leading_spaces(seg@),
            strip_trailing_spaces(after_lead) == strip_trailing_spaces(
                cs@.subrange(lo as int, hi as int),
            ),
        decreases hi - lo,
    {
        proof {
            let w = cs@.subrange(lo as int, hi as int);
            assert(w.last() == cs@[hi - 1]);
            assert(w.drop_last() =~= cs@.subrange(lo as int, hi - 1));
        }
        hi = hi - 1;
    }
    proof {
        let w = cs@.subrange(lo as int, hi as int);
        assert(strip_trailing_spaces(w) == w);
        assert(trim_spaces(seg@) == cs@.subrange(lo as int, hi as int));
    }
    let ghost trimmed = cs@.subrange(lo as int, hi as int);
    let pat = chars_of("filename=");
    if !window_has_prefix(&cs, lo, hi, &pat) {
        return None;
    }
    // strip every leading repetition of the key
    while window_has_prefix(&cs, lo, hi, &pat)
        invariant
            lo <= hi <= n,
            n == cs@.len(),
            cs@ == seg@,
            pat@ == "filename="@,
            trimmed == trim_spaces(seg@),
            strip_prefix_all(trimmed, "filename="@) == strip_prefix_all(
                cs@.subrange(lo as int, hi as int),
                "filename="@,
            ),
        decreases hi - lo,
    {
        proof {
            reveal_strlit("filename=");
            let w = cs@.subrange(lo as int, hi as int);
            assert(w.skip(pat@.len() as int) =~= cs@.subrange(lo + pat@.len(), hi as int));
        }
        lo = lo + pat.len();
    }
    proof {
        reveal_strlit("filename=");
        let w = cs@.subrange(lo as int, hi as int);
        assert(strip_prefix_all(w, "filename="@) == w);
    }
    let ghost unkeyed = cs@.subrange(lo as int, hi as int);
    // strip quotes on both ends
    while lo < hi && cs[lo] == '"'
        invariant
            lo <= hi <= n,
            n == cs@.len(),
            cs@ == seg@,
            unkeyed == strip_prefix_all(trim_spaces(seg@), "filename="@),
            strip_leading_char(unkeyed, '"') == strip_leading_char(
                cs@.subrange(lo as int, hi as int),
                '"',
            ),
        decreases hi - lo,
    {
        proof {
            let w = cs@.subrange(lo as int, hi as int);
            assert(w[0] == cs@[lo as int]);
            assert(w.drop_first() =~= cs@.subrange(lo + 1, hi as int));
        }
        lo = lo + 1;
    }
    proof {
        let w = cs@.subrange(lo as int, hi as int);
        assert(strip_leading_char(w, '"') == w);
    }
    let ghost unquoted_l = cs@.subrange(lo as int, hi as int);
    while hi > lo && cs[hi - 1] == '"'
        invariant
            lo <= hi <= n,
            n == cs@.len(),
            cs@ == seg@,
            unquoted_l == strip_leading_char(
                strip_prefix_all(trim_spaces(seg@), "filename="@),
                '"',
            ),
            strip_trailing_char(unquoted_l, '"') == strip_trailing_char(
                cs@.subrange(lo as int, hi as int),
                '"',
            ),
        decreases hi - lo,
    {
        proof {
            let w = cs@.subrange(lo as int, hi as int);
            assert(w.last() == cs@[hi - 1]);
            assert(w.drop_last() =~= cs@.subrange(lo as int, hi - 1));
        }
        hi = hi - 1;
    }
    proof {
        let w = cs@.subrange(lo as int, hi as int);
        assert(strip_trailing_char(w, '"') == w);
    }
    Some(seg.as_str().substring_char(lo, hi).to_owned())
}

/// The filename carried by a content-disposition header: the unquoted
/// value of its first `filename=` segment.
pub fn content_disposition_filename(header: &str) -> (r: Option<String>)
    ensures
        match r {
            Some(f) => spec_content_disposition_filename(header@) == Some(f@),
            None => spec_content_disposition_filename(header@) is None,
        },
{
    let segs = split_on_exec(header, ';');
    let ghost segsv = split_on(header@, ';');
    let mut i: usize = 0;
    proof {
        assert(segsv.skip(0) =~= segsv);
    }
    while i < segs.len()
        invariant
            i <= segs@.len(),
            segsv == split_on(header@, ';'),
            segsv == segs@.map_values(|t: String| t@),
            first_filename(segsv) == first_filename(segsv.skip(i as int)),
        decreases segs@.len() - i,
    {
        proof {
            assert(segsv.skip(i as int)[0] == segsv[i as int]);
            assert(segsv.skip(i as int).drop_first() =~= segsv.skip(i + 1));
        }
        match segment_filename(&segs[i]) {
            Some(f) => {
                return Some(f);
            },
            None => {
            },
        }
        i = i + 1;
    }
    proof {
        assert(segsv.skip(i as int).len() == 0);
    }
    None
}

/// Whether the window cs[..end] ends with the given pattern.
fn window_has_suffix(cs: &Vec<char>, end: usize, suf: &Vec<char>) -> (b: bool)
    requires
        end <= cs@.len(),
    ensures
        b == (suf@.len() <= end && cs@.subrange(0, end as int).subrange(
            end - suf@.len(),
            end as int,
        ) == suf@),
{
    let ghost w = cs@.subrange(0, end as int);
    if suf.len() > end {
        return false;
    }
    let base = end - suf.len();
    let mut i: usize = 0;
    while i < suf.len()
        invariant
            i <= suf@.len(),
            suf@.len() <= end <= cs@.len(),
            base == end - suf@.len(),
            w == cs@.subrange(0, end as int),
            forall|k: int| 0 <= k < i ==> cs@[base + k] == suf@[k],
        decreases suf@.len() - i,
    {
        if cs[base + i] != suf[i] {
            proof {
                assert(w[base + i] == cs@[base + i]);
                assert(w.subrange(end - suf@.len(), end as int)[i as int] != suf@[i as int]);
            }
            return false;
        }
        i = i + 1;
    }
    proof {
        assert(w.subrange(end - suf@.len(), end as int) =~= suf@);
    }
    true
}

/// The versioned directory a downloaded archive unpacks to: its filename
/// without the archive suffix.
pub fn archive_dir_name(filename: &str) -> (r: String)
    ensures
        r@ == strip_suffix_all(filename@, ".tar.gz"@),
{
    let cs = chars_of(filename);
    let suf = chars_of(".tar.gz");
    let mut end: usize = cs.len();
    proof {
        assert(cs@.subrange(0, end as int) =~= filename@);
    }
    while window_has_suffix(&cs, end, &suf)
        invariant
            end <= cs@.len(),
            cs@ == filename@,
            suf@ == ".tar.gz"@,
            strip_suffix_all(filename@, ".tar.gz"@) == strip_suffix_all(
                cs@.subrange(0, end as int),
                ".tar.gz"@,
            ),
        decreases end,
    {
        proof {
            reveal_strlit(".tar.gz");
            let w = cs@.subrange(0, end as int);
            assert(w.subrange(0, w.len() - suf@.len()) =~= cs@.subrange(
                0,
                end - suf@.len(),
            ));
        }
        end = end - suf.len();
    }
    proof {
        reveal_strlit(".tar.gz");
        let w = cs@.subrange(0, end as int);
        assert(strip_suffix_all(w, ".tar.gz"@) == w);
    }
    filename.substring_char(0, end).to_owned()
}

/// The string with every newline removed.
pub open spec fn drop_newlines(s: Seq<char>) -> Seq<char>
    decreases s.len(),
{
    if s.len() == 0 {
        Seq::empty()
    } else if s[0] == '\n' {
        drop_newlines(s.drop_first())
    } else {
        seq![s[0]] + drop_newlines(s.drop_first())
    }
}

/// The artifact name in an extraction listing: the listing without
/// newlines, less its two leading mode characters; nothing when the
/// listing is too short to hold a name.
pub open spec fn spec_extracted_dir(s: Seq<char>) -> Option<Seq<char>> {
    let t = drop_newlines(s);
    if t.len() >= 2 {
        Some(t.skip(2))
    } else {
        None
    }
}

/// Read the artifact name out of an extraction listing.
pub fn extracted_dir_from_listing(listing: &str) -> (r: Option<String>)
    ensures
        match r {
            Some(d) => spec_extracted_dir(listing@) == Some(d@),
            None => spec_extracted_dir(listing@) is None,
        },
{
    let cs = chars_of(listing);
    let n = cs.len();
    let mut filt: Vec<char> = Vec::new();
    let mut i: usize = 0;
    proof {
        assert(cs@.skip(0) =~= cs@);
        assert(filt@ + drop_newlines(cs@.skip(0)) =~= drop_newlines(listing@));
    }
    while i < n
        invariant
            i <= n,
            n == cs@.len(),
            cs@ == listing@,
            drop_newlines(listing@) =~= filt@ + drop_newlines(cs@.skip(i as int)),
        decreases n - i,
    {
        proof {
            assert(cs@.skip(i as int)[0] == cs@[i as int]);
            assert(cs@.skip(i as int).drop_first() =~= cs@.skip(i + 1));
        }
        let c = cs[i];
        if c != '\n' {
            filt.push(c);
        }
        i = i + 1;
    }
    proof {
        assert(cs@.skip(n as int).len() == 0);
        assert(filt@ =~= drop_newlines(listing@));
    }
    if filt.len() < 2 {
        return None;
    }
    let mut out = String::new();
    let mut j: usize = 2;
    while j < filt.len()
        invariant
            2 <= j <= filt@.len(),
            out@ =~= filt@.subrange(2, j as int),
        decreases filt@.len() - j,
    {
        push_char(&mut out, filt[j]);
        proof {
            assert(out@ =~= filt@.subrange(2, j + 1));
        }
        j = j + 1;
    }
    proof {
        assert(filt@.subrange(2, filt@.len() as int) =~= filt@.skip(2));
    }
    Some(out)
}

/// The string with every occurrence of a pattern replaced, left to right.
pub open spec fn replace_all(s: Seq<char>, pat: Seq<char>, to: Seq<char>) -> Seq<char>
    decreases s.len(),
{
    if pat.len() == 0 || s.len() < pat.len() {
        s
    } else if s.subrange(0, pat.len() as int) == pat {
        to + replace_all(s.skip(pat.len() as int), pat, to)
    } else {
        seq![s[0]] + replace_all(s.drop_first(), pat, to)
    }
}

/// The download location for one variant: the template with the variant
/// placeholder filled in.
pub fn resolve_download_url(template: &str, variant: &str) -> (r: String)
    ensures
        r@ == replace_all(template@, "{VARIANT}"@, variant@),
{
    let cs = chars_of(template);
    let pat = chars_of("{VARIANT}");
    let n = cs.len();
    let mut out = String::new();
    let mut i: usize = 0;
    proof {
        reveal_strlit("{VARIANT}");
        assert(cs@.skip(0) =~= cs@);
    }
    while i < n
        invariant
            i <= n,
            n == cs@.len(),
            cs@ == template@,
            pat@ == "{VARIANT}"@,
            pat@.len() == 9,
            replace_all(template@, "{VARIANT}"@, variant@) =~= out@ + replace_all(
                cs@.skip(i as int),
                "{VARIANT}"@,
                variant@,
            ),
        decreases n - i,
    {
        let ghost w = cs@.skip(i as int);
        if window_has_prefix(&cs, i, n, &pat) {
            proof {
                assert(w =~= cs@.subrange(i as int, n as int));
                assert(w.subrange(0, pat@.len() as int) == pat@);
                assert(w.skip(pat@.len() as int) =~= cs@.skip(i + pat@.len()));
            }
            out.append(variant);
            i = i + pat.len();
        } else {
            proof {
                assert(w =~= cs@.subrange(i as int, n as int));
                assert(w[0] == cs@[i as int]);
                assert(w.drop_first() =~= cs@.skip(i + 1));
                if w.len() < pat@.len() {
                    assert(replace_all(w, "{VARIANT}"@, variant@) == w);
                    assert(w.drop_first().len() < pat@.len());
                    assert(replace_all(w.drop_first(), "{VARIANT}"@, variant@)
                        == w.drop_first());
                    assert(w =~= seq![w[0]] + w.drop_first());
                }
            }
            push_char(&mut out, cs[i]);
            i = i + 1;
        }
    }
    proof {
        assert(cs@.skip(n as int).len() == 0);
        assert(replace_all(cs@.skip(n as int), "{VARIANT}"@, variant@) == cs@.skip(n as int));
        assert(replace_all(template@, "{VARIANT}"@, variant@) =~= out@);
    }
    out
}

/// One path under a directory, with a separator only where the base does
/// not already end in one.
pub open spec fn spec_join_path(base: Seq<char>, name: Seq<char>) -> Seq<char> {
    if base.len() > 0 && base[base.len() - 1] == '/' {
        base + name
    } else {
        base + seq!['/'] + name
    }
}

/// Join a directory and a name into one path.
pub fn join_path(base: &str, name: &str) -> (r: String)
    ensures
        r@ == spec_join_path(base@, name@),
{
    let n = base.unicode_len();
    let mut out = base.to_owned();
    if n == 0 || base.get_char(n - 1) != '/' {
        push_char(&mut out, '/');
        proof {
            assert(out@ =~= base@ + seq!['/']);
        }
    }
    out.append(name);
    proof {
        assert((base@ + seq!['/']) + name@ =~= base@ + seq!['/'] + name@);
    }
    out
}

} // verus!
