//! Paths as text: joining, home expansion, the search path, and purely
//! lexical normalization. Nothing here looks at a file system. Paths use `/`
//! between segments and `:` between the entries of a search path.

use crate::text::chars_of;
use vstd::prelude::*;

verus! {

/// Whether a path starts at the root.
pub open spec fn is_absolute(p: Seq<char>) -> bool {
    p.len() > 0 && p[0] == '/'
}

/// `rel` taken relative to `base`: an absolute `rel` replaces `base`;
/// otherwise `rel` follows `base`, with one `/` between the two unless `base`
/// is empty or already ends in one.
pub open spec fn join(base: Seq<char>, rel: Seq<char>) -> Seq<char> {
    if is_absolute(rel) || base.len() == 0 {
        rel
    } else if base.last() == '/' {
        base + rel
    } else {
        base + seq!['/'] + rel
    }
}

/// What an optional string slice holds.
pub open spec fn opt_text(o: Option<&str>) -> Option<Seq<char>> {
    match o {
        Some(s) => Some(s@),
        None => None,
    }
}

/// What an optional string holds.
pub open spec fn opt_string(o: Option<String>) -> Option<Seq<char>> {
    match o {
        Some(s) => Some(s@),
        None => None,
    }
}

/// Whether `token` refers to the home directory: it begins with `~`.
pub open spec fn names_home(token: Seq<char>) -> bool {
    token.len() > 0 && token[0] == '~'
}

/// `token` with a leading `~` replaced by the home directory. A token without
/// that sigil is unchanged, and so is every token when no home directory is
/// known.
pub open spec fn expand_home(token: Seq<char>, home: Option<Seq<char>>) -> Seq<char> {
    match home {
        Some(h) if names_home(token) => h + token.drop_first(),
        _ => token,
    }
}

/// The diagnostic for a `~` that cannot be expanded.
pub open spec fn missing_home_line() -> Seq<char> {
    "Env Missing Home folder"@
}

/// The diagnostic that the expansion of `token` calls for: one line if the
/// token begins with `~` and no home directory is known.
pub open spec fn home_note(token: Seq<char>, home: Option<Seq<char>>) -> Option<Seq<char>> {
    if names_home(token) && home is None {
        Some(missing_home_line())
    } else {
        None
    }
}

/// The pieces of `s` between occurrences of `sep`. There is always one piece
/// more than there are separators; pieces may be empty.
pub open spec fn split_on(s: Seq<char>, sep: char) -> Seq<Seq<char>>
    decreases s.len(),
{
    if s.len() == 0 {
        seq![Seq::<char>::empty()]
    } else {
        let before = split_on(s.drop_last(), sep);
        if s.last() == sep {
            before.push(Seq::<char>::empty())
        } else {
            before.drop_last().push(before.last().push(s.last()))
        }
    }
}

/// The directories of a search path variable: none if the variable is not
/// set, else its pieces between colons, in order.
pub open spec fn search_path_of(value: Option<Seq<char>>) -> Seq<Seq<char>> {
    match value {
        Some(s) => split_on(s, ':'),
        None => Seq::<Seq<char>>::empty(),
    }
}

/// The segment `.`, which names the directory it stands in.
pub open spec fn dot() -> Seq<char> {
    seq!['.']
}

/// The segment `..`, which names the parent directory.
pub open spec fn dotdot() -> Seq<char> {
    seq!['.', '.']
}

/// One segment applied to the segments kept so far. Empty segments and `.`
/// change nothing. `..` removes the segment before it if that is an ordinary
/// name, and is kept otherwise. Any other segment is kept.
pub open spec fn collapse(kept: Seq<Seq<char>>, segment: Seq<char>) -> Seq<Seq<char>> {
    if segment.len() == 0 || segment == dot() {
        kept
    } else if segment == dotdot() && kept.len() > 0 && kept.last() != dotdot() {
        kept.drop_last()
    } else {
        kept.push(segment)
    }
}

/// The segments that remain when `segments` are applied one after another,
/// from the left.
pub open spec fn normalize(segments: Seq<Seq<char>>) -> Seq<Seq<char>>
    decreases segments.len(),
{
    if segments.len() == 0 {
        Seq::<Seq<char>>::empty()
    } else {
        collapse(normalize(segments.drop_last()), segments.last())
    }
}

/// The pieces written one after another with `sep` between them.
pub open spec fn join_with(pieces: Seq<Seq<char>>, sep: char) -> Seq<char>
    decreases pieces.len(),
{
    if pieces.len() == 0 {
        Seq::<char>::empty()
    } else if pieces.len() == 1 {
        pieces[0]
    } else {
        join_with(pieces.drop_last(), sep) + seq![sep] + pieces.last()
    }
}

/// A path written from its segments: after the root if `rooted`; a path that
/// is neither rooted nor has a segment is written `.`.
pub open spec fn render(rooted: bool, segments: Seq<Seq<char>>) -> Seq<char> {
    if rooted {
        seq!['/'] + join_with(segments, '/')
    } else if segments.len() == 0 {
        dot()
    } else {
        join_with(segments, '/')
    }
}

/// The normal form of `path` as seen from the directory `cwd`: `path` itself
/// if it is absolute, else `path` joined to `cwd`; then with its segments
/// normalized.
pub open spec fn canonical(path: Seq<char>, cwd: Seq<char>) -> Seq<char> {
    let full = join(cwd, path);
    render(is_absolute(full), normalize(split_on(full, '/')))
}

/// Whether the character `c` does not occur in `s`.
pub open spec fn free_of(s: Seq<char>, c: char) -> bool {
    forall|i: int| 0 <= i < s.len() ==> #[trigger] s[i] != c
}

/// Whether each of `segments` is free of `/`.
pub open spec fn all_plain(segments: Seq<Seq<char>>) -> bool {
    forall|i: int| 0 <= i < segments.len() ==> free_of(#[trigger] segments[i], '/')
}

/// Whether nothing is left to normalize in `segments`: none is empty or `.`,
/// and `..` occurs only at the front.
pub open spec fn settled(segments: Seq<Seq<char>>) -> bool {
    forall|i: int|
        0 <= i < segments.len() ==> {
            &&& (#[trigger] segments[i]).len() > 0
            &&& segments[i] != dot()
            &&& segments[i] == dotdot() ==> i == 0 || segments[i - 1] == dotdot()
        }
}

/// Splitting gives at least one piece, and no piece holds the separator.
pub proof fn lemma_split_on_pieces(s: Seq<char>, sep: char)
    ensures
        split_on(s, sep).len() >= 1,
        forall|i: int| 0 <= i < split_on(s, sep).len() ==> free_of(#[trigger] split_on(s, sep)[i], sep),
    decreases s.len(),
{
    if s.len() > 0 {
        lemma_split_on_pieces(s.drop_last(), sep);
    }
}

/// The pieces of a string, written with the separator between them, are the
/// string.
pub proof fn lemma_split_on_joins_back(s: Seq<char>, sep: char)
    ensures
        join_with(split_on(s, sep), sep) == s,
    decreases s.len(),
{
    if s.len() == 0 {
        assert(join_with(split_on(s, sep), sep) =~= s);
    } else {
        let init = s.drop_last();
        let before = split_on(init, sep);
        let whole = split_on(s, sep);
        lemma_split_on_joins_back(init, sep);
        lemma_split_on_pieces(init, sep);
        if s.last() == sep {
            assert(whole.drop_last() =~= before);
            assert(join_with(whole, sep) =~= init.push(sep));
        } else {
            let grown = before.last().push(s.last());
            assert(whole.last() == grown);
            if before.len() == 1 {
                assert(before.last() == join_with(before, sep));
            } else {
                assert(whole.drop_last() =~= before.drop_last());
                assert(join_with(whole, sep) =~= join_with(before, sep).push(s.last()));
            }
            assert(join_with(whole, sep) =~= init.push(s.last()));
        }
        assert(init.push(s.last()) =~= s);
    }
}

/// The root alone splits into two empty pieces.
proof fn lemma_split_on_root()
    ensures
        split_on(seq!['/'], '/') == seq![Seq::<char>::empty(), Seq::<char>::empty()],
{
    let e = Seq::<char>::empty();
    let root = seq!['/'];
    assert(split_on(e, '/') == seq![e]);
    assert(root.drop_last() =~= e);
    assert(split_on(root, '/') == split_on(root.drop_last(), '/').push(e));
    assert(seq![e].push(e) =~= seq![e, e]);
}

/// Text without a separator, put after `a`, lengthens the last piece of `a`.
proof fn lemma_split_on_append(a: Seq<char>, b: Seq<char>, sep: char)
    requires
        free_of(b, sep),
    ensures
        split_on(a + b, sep) == split_on(a, sep).drop_last().push(split_on(a, sep).last() + b),
    decreases b.len(),
{
    let whole = split_on(a, sep);
    lemma_split_on_pieces(a, sep);
    if b.len() == 0 {
        assert(a + b =~= a);
        assert(whole.last() + b =~= whole.last());
        assert(whole.drop_last().push(whole.last()) =~= whole);
    } else {
        let b0 = b.drop_last();
        lemma_split_on_append(a, b0, sep);
        assert((a + b).drop_last() =~= a + b0);
        assert((a + b).last() == b.last());
        let before = split_on(a + b0, sep);
        assert(before.drop_last() =~= whole.drop_last());
        assert((whole.last() + b0).push(b.last()) =~= whole.last() + b);
    }
}

/// A rooted path written from plain segments splits into an empty piece, for
/// the root, and those segments.
proof fn lemma_split_on_rendered(segments: Seq<Seq<char>>)
    requires
        all_plain(segments),
        segments.len() > 0,
    ensures
        split_on(seq!['/'] + join_with(segments, '/'), '/') == seq![Seq::<char>::empty()]
            + segments,
    decreases segments.len(),
{
    let root = seq!['/'];
    let e = Seq::<char>::empty();
    if segments.len() == 1 {
        lemma_split_on_root();
        lemma_split_on_append(root, segments[0], '/');
        assert(e + segments[0] =~= segments[0]);
        assert(seq![e, e].drop_last().push(segments[0]) =~= seq![e] + segments);
    } else {
        let init = segments.drop_last();
        assert(all_plain(init)) by {
            assert forall|i: int| 0 <= i < init.len() implies free_of(#[trigger] init[i], '/') by {
                assert(init[i] == segments[i]);
            }
        }
        lemma_split_on_rendered(init);
        let x = root + join_with(init, '/');
        assert(root + join_with(segments, '/') =~= (x + root) + segments.last());
        assert((x + root).drop_last() =~= x);
        lemma_split_on_append(x + root, segments.last(), '/');
        assert(e + segments.last() =~= segments.last());
        assert(split_on(x, '/').push(e).drop_last() =~= split_on(x, '/'));
        assert((seq![e] + init).push(segments.last()) =~= seq![e] + segments);
    }
}

/// Normalizing leaves nothing to normalize, and keeps plain segments plain.
pub proof fn lemma_normalize_settled(segments: Seq<Seq<char>>)
    ensures
        settled(normalize(segments)),
        all_plain(segments) ==> all_plain(normalize(segments)),
    decreases segments.len(),
{
    if segments.len() > 0 {
        let init = segments.drop_last();
        lemma_normalize_settled(init);
        if all_plain(segments) {
            assert(all_plain(init)) by {
                assert forall|i: int| 0 <= i < init.len() implies free_of(
                    #[trigger] init[i],
                    '/',
                ) by {
                    assert(init[i] == segments[i]);
                }
            }
            assert(free_of(segments.last(), '/'));
        }
    }
}

/// Segments with nothing left to normalize, after the empty piece that stands
/// for the root, normalize to themselves.
proof fn lemma_normalize_fixed(segments: Seq<Seq<char>>)
    requires
        settled(segments),
    ensures
        normalize(seq![Seq::<char>::empty()] + segments) == segments,
    decreases segments.len(),
{
    let e = Seq::<char>::empty();
    let lead = seq![e];
    if segments.len() == 0 {
        assert(lead + segments =~= lead);
        assert(normalize(Seq::<Seq<char>>::empty()) == Seq::<Seq<char>>::empty());
        assert(lead.drop_last() =~= Seq::<Seq<char>>::empty());
        assert(normalize(lead) == collapse(normalize(lead.drop_last()), lead.last()));
    } else {
        let init = segments.drop_last();
        assert(settled(init)) by {
            assert forall|i: int| 0 <= i < init.len() implies {
                &&& (#[trigger] init[i]).len() > 0
                &&& init[i] != dot()
                &&& init[i] == dotdot() ==> i == 0 || init[i - 1] == dotdot()
            } by {
                assert(init[i] == segments[i]);
                if i > 0 {
                    assert(init[i - 1] == segments[i - 1]);
                }
            }
        }
        lemma_normalize_fixed(init);
        assert((lead + segments).drop_last() =~= lead + init);
        assert((lead + segments).last() == segments.last());
        let k = segments.len() - 1;
        assert(segments[k].len() > 0);
        if k > 0 {
            assert(init.last() == segments[k - 1]);
        }
        assert(init.push(segments.last()) =~= segments);
    }
}

/// Normalizing a path twice gives what normalizing it once gives, from any
/// absolute working directory; and the result is absolute.
pub proof fn lemma_canonical_idempotent(path: Seq<char>, cwd: Seq<char>)
    requires
        is_absolute(cwd),
    ensures
        is_absolute(canonical(path, cwd)),
        canonical(canonical(path, cwd), cwd) == canonical(path, cwd),
{
    let e = Seq::<char>::empty();
    let full = join(cwd, path);
    assert(is_absolute(full));
    let kept = normalize(split_on(full, '/'));
    let once = canonical(path, cwd);
    assert(once == seq!['/'] + join_with(kept, '/'));
    assert(join(cwd, once) == once);
    lemma_split_on_pieces(full, '/');
    lemma_normalize_settled(split_on(full, '/'));
    if kept.len() == 0 {
        let root = seq!['/'];
        assert(once =~= root);
        lemma_split_on_root();
        assert(seq![e, e].drop_last() =~= seq![e] + kept);
        lemma_normalize_fixed(kept);
        assert(normalize(seq![e, e]) =~= kept);
    } else {
        lemma_split_on_rendered(kept);
        lemma_normalize_fixed(kept);
    }
}

/// Whether `s` begins with the character `c`.
pub fn starts_with(s: &str, c: char) -> (b: bool)
    ensures
        b == (s@.len() > 0 && s@[0] == c),
{
    !s.is_empty() && s.get_char(0) == c
}

/// Joins `rel` to `base`.
pub fn join_path(base: &str, rel: &str) -> (out: String)
    ensures
        out@ == join(base@, rel@),
{
    if starts_with(rel, '/') || base.is_empty() {
        return rel.to_owned();
    }
    let b = chars_of(base);
    let mut out = base.to_owned();
    if b[b.len() - 1] != '/' {
        proof {
            reveal_strlit("/");
            assert("/"@ =~= seq!['/']);
        }
        out.append("/");
    }
    out.append(rel);
    out
}

/// Replaces a leading `~` of `path` by the home directory `home`.
///
/// Returns the path and the diagnostic that is due, if any: without a home
/// directory a path that begins with `~` is returned as it is, `~` and all,
/// and the diagnostic says that no home directory is known.
pub fn home_folder_path(path: &str, home: Option<&str>) -> (out: (String, Option<String>))
    ensures
        out.0@ == expand_home(path@, opt_text(home)),
        opt_string(out.1) == home_note(path@, opt_text(home)),
{
    if !starts_with(path, '~') {
        return (path.to_owned(), None);
    }
    match home {
        Some(h) => {
            let n = path.unicode_len();
            let mut out = h.to_owned();
            assert(path@.subrange(1, n as int) =~= path@.drop_first());
            out.append(path.substring_char(1, n));
            (out, None)
        },
        None => (path.to_owned(), Some("Env Missing Home folder".to_owned())),
    }
}

/// The pieces of `s` that the index pairs `ranges` mark out.
spec fn pieces(s: Seq<char>, ranges: Seq<(usize, usize)>) -> Seq<Seq<char>> {
    Seq::new(ranges.len(), |i: int| s.subrange(ranges[i].0 as int, ranges[i].1 as int))
}

/// Whether each pair of `ranges` marks out a piece of `s`.
spec fn in_bounds(s: Seq<char>, ranges: Seq<(usize, usize)>) -> bool {
    forall|i: int| 0 <= i < ranges.len() ==> (#[trigger] ranges[i]).0 <= ranges[i].1 <= s.len()
}

/// Where the pieces of `s` between occurrences of `sep` begin and end.
fn split_ranges(s: &Vec<char>, sep: char) -> (ranges: Vec<(usize, usize)>)
    ensures
        in_bounds(s@, ranges@),
        pieces(s@, ranges@) == split_on(s@, sep),
{
    let n = s.len();
    let mut ranges: Vec<(usize, usize)> = Vec::new();
    let mut start: usize = 0;
    let mut i: usize = 0;
    assert(s@.subrange(0, 0) =~= Seq::<char>::empty());
    assert(split_on(s@.take(0), sep) =~= pieces(s@, ranges@).push(s@.subrange(0, 0)));
    while i < n
        invariant
            start <= i <= n == s.len(),
            in_bounds(s@, ranges@),
            split_on(s@.take(i as int), sep) == pieces(s@, ranges@).push(
                s@.subrange(start as int, i as int),
            ),
        decreases n - i,
    {
        let ghost before = pieces(s@, ranges@);
        assert(s@.take(i + 1).drop_last() =~= s@.take(i as int));
        if s[i] == sep {
            ranges.push((start, i));
            assert(pieces(s@, ranges@) =~= before.push(s@.subrange(start as int, i as int)));
            start = i + 1;
            assert(s@.subrange(start as int, i + 1) =~= Seq::<char>::empty());
        } else {
            assert(s@.subrange(start as int, i + 1) =~= s@.subrange(start as int, i as int).push(
                s@[i as int],
            ));
            assert(before.push(s@.subrange(start as int, i as int)).drop_last() =~= before);
        }
        i += 1;
    }
    let ghost before = pieces(s@, ranges@);
    assert(s@.take(n as int) =~= s@);
    ranges.push((start, n));
    assert(pieces(s@, ranges@) =~= before.push(s@.subrange(start as int, n as int)));
    ranges
}

/// The directories named by a search path variable, in order.
pub fn split_search_path(value: Option<&str>) -> (dirs: Vec<String>)
    ensures
        dirs.deep_view() == search_path_of(opt_text(value)),
{
    let mut dirs: Vec<String> = Vec::new();
    match value {
        None => {
            assert(dirs.deep_view() =~= Seq::<Seq<char>>::empty());
        },
        Some(s) => {
            let chars = chars_of(s);
            let ranges = split_ranges(&chars, ':');
            let mut j: usize = 0;
            while j < ranges.len()
                invariant
                    j <= ranges.len(),
                    chars@ == s@,
                    in_bounds(chars@, ranges@),
                    dirs.deep_view() =~= pieces(chars@, ranges@).take(j as int),
                decreases ranges.len() - j,
            {
                let r = ranges[j];
                let ghost before = dirs.deep_view();
                let dir = s.substring_char(r.0, r.1).to_owned();
                dirs.push(dir);
                assert(dirs.deep_view() =~= before.push(dir@));
                j += 1;
            }
            assert(pieces(chars@, ranges@).take(j as int) =~= pieces(chars@, ranges@));
        },
    }
    dirs
}

/// Whether the piece of `s` marked by `r` is the segment `.`.
fn is_dot(s: &Vec<char>, r: (usize, usize)) -> (b: bool)
    requires
        r.0 <= r.1 <= s.len(),
    ensures
        b == (s@.subrange(r.0 as int, r.1 as int) == dot()),
{
    let ghost seg = s@.subrange(r.0 as int, r.1 as int);
    if r.1 - r.0 == 1 && s[r.0] == '.' {
        assert(seg =~= dot());
        true
    } else {
        assert(seg.len() != 1 || seg[0] != dot()[0]);
        false
    }
}

/// Whether the piece of `s` marked by `r` is the segment `..`.
fn is_dotdot(s: &Vec<char>, r: (usize, usize)) -> (b: bool)
    requires
        r.0 <= r.1 <= s.len(),
    ensures
        b == (s@.subrange(r.0 as int, r.1 as int) == dotdot()),
{
    let ghost seg = s@.subrange(r.0 as int, r.1 as int);
    if r.1 - r.0 == 2 && s[r.0] == '.' && s[r.0 + 1] == '.' {
        assert(seg =~= dotdot());
        true
    } else {
        assert(seg.len() != 2 || seg[0] != dotdot()[0] || seg[1] != dotdot()[1]);
        false
    }
}

/// The normal form of `path` as seen from the directory `cwd`.
///
/// A relative `path` is joined to `cwd` first. Then empty segments and `.`
/// are dropped, and each `..` takes away the ordinary segment before it, or
/// stays where there is none. Only the text is looked at: no link is
/// followed, and no file needs to exist.
pub fn absolute_path(path: &str, cwd: &str) -> (out: String)
    ensures
        out@ == canonical(path@, cwd@),
        is_absolute(cwd@) ==> is_absolute(out@),
{
    let full = join_path(cwd, path);
    let chars = chars_of(full.as_str());
    let ranges = split_ranges(&chars, '/');
    let ghost all = pieces(chars@, ranges@);
    let mut kept: Vec<(usize, usize)> = Vec::new();
    let mut j: usize = 0;
    assert(pieces(chars@, kept@) =~= normalize(all.take(0)));
    while j < ranges.len()
        invariant
            j <= ranges.len(),
            all == pieces(chars@, ranges@),
            in_bounds(chars@, ranges@),
            in_bounds(chars@, kept@),
            pieces(chars@, kept@) == normalize(all.take(j as int)),
        decreases ranges.len() - j,
    {
        let r = ranges[j];
        let ghost before = pieces(chars@, kept@);
        let ghost segment = chars@.subrange(r.0 as int, r.1 as int);
        assert(all.take(j + 1).drop_last() =~= all.take(j as int));
        assert(all.take(j + 1).last() == segment);
        if r.0 == r.1 || is_dot(&chars, r) {
        } else if is_dotdot(&chars, r) && kept.len() > 0 && !is_dotdot(
            &chars,
            kept[kept.len() - 1],
        ) {
            kept.pop();
            assert(pieces(chars@, kept@) =~= before.drop_last());
        } else {
            assert(kept.len() > 0 ==> before.last() == chars@.subrange(
                kept[kept.len() - 1].0 as int,
                kept[kept.len() - 1].1 as int,
            ));
            kept.push(r);
            assert(pieces(chars@, kept@) =~= before.push(segment));
        }
        j += 1;
    }
    assert(all.take(j as int) =~= all);
    let ghost segments = pieces(chars@, kept@);
    let rooted = starts_with(full.as_str(), '/');
    let mut out = String::new();
    if rooted {
        proof {
            reveal_strlit("/");
            assert("/"@ =~= seq!['/']);
        }
        out.append("/");
    } else if kept.len() == 0 {
        proof {
            reveal_strlit(".");
            assert("."@ =~= dot());
        }
        return ".".to_owned();
    }
    let ghost prefix = out@;
    let mut i: usize = 0;
    assert(out@ =~= prefix + join_with(segments.take(0), '/'));
    while i < kept.len()
        invariant
            i <= kept.len(),
            chars@ == full@,
            in_bounds(chars@, kept@),
            segments == pieces(chars@, kept@),
            out@ == prefix + join_with(segments.take(i as int), '/'),
        decreases kept.len() - i,
    {
        let r = kept[i];
        assert(segments.take(i + 1).drop_last() =~= segments.take(i as int));
        assert(segments.take(i + 1).last() == chars@.subrange(r.0 as int, r.1 as int));
        if i > 0 {
            proof {
                reveal_strlit("/");
                assert("/"@ =~= seq!['/']);
            }
            out.append("/");
        } else {
            assert(segments.take(1)[0] == chars@.subrange(r.0 as int, r.1 as int));
        }
        out.append(full.as_str().substring_char(r.0, r.1));
        assert(out@ =~= prefix + join_with(segments.take(i + 1), '/'));
        i += 1;
    }
    assert(segments.take(i as int) =~= segments);
    out
}

} // verus!
