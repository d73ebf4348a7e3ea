//! Reading what `yt-dlp --flat-playlist --dump-json` prints: one JSON object
//! per line, one line per video of the playlist.
use vstd::prelude::*;

verus! {

/// One video of a playlist, as yt-dlp describes it.
#[derive(Debug, PartialEq, Eq)]
pub struct PlaylistItem {
    pub url: String,
    pub title: String,
    pub duration: i64,
    pub uploader: String,
}

/// The yt-dlp audio provider.
pub struct YtDlp;

/// The newline byte.
pub open spec fn newline() -> u8 {
    10
}

/// The pieces of `s` between newlines, in order: one more piece than `s`
/// has newlines, empty pieces included.
pub open spec fn split_lines(s: Seq<u8>) -> Seq<Seq<u8>>
    decreases s.len(),
{
    if s.len() == 0 {
        seq![Seq::empty()]
    } else {
        let pieces = split_lines(s.drop_last());
        if s.last() == newline() {
            pieces.push(Seq::empty())
        } else {
            pieces.update(pieces.len() - 1, pieces.last().push(s.last()))
        }
    }
}

/// A piece that holds at least one byte.
pub open spec fn is_entry(piece: Seq<u8>) -> bool {
    piece.len() > 0
}

/// `is_entry` as a predicate value.
pub open spec fn is_entry_fn() -> spec_fn(Seq<u8>) -> bool {
    |piece: Seq<u8>| is_entry(piece)
}

/// The non-empty lines of `s`, in order.
pub open spec fn playlist_entries_spec(s: Seq<u8>) -> Seq<Seq<u8>> {
    split_lines(s).filter(is_entry_fn())
}

/// The lines that could be read as a playlist item, in order.
pub open spec fn playlist_items_spec(parsed: Seq<Option<PlaylistItem>>) -> Seq<PlaylistItem> {
    parsed.filter_map(|o: Option<PlaylistItem>| o)
}

proof fn lemma_split_lines_nonempty(s: Seq<u8>)
    ensures
        split_lines(s).len() >= 1,
    decreases s.len(),
{
    if s.len() > 0 {
        lemma_split_lines_nonempty(s.drop_last());
    }
}

proof fn lemma_filter_push_entry(pieces: Seq<Seq<u8>>, piece: Seq<u8>)
    ensures
        pieces.push(piece).filter(is_entry_fn()) == (if is_entry(piece) {
            pieces.filter(is_entry_fn()).push(piece)
        } else {
            pieces.filter(is_entry_fn())
        }),
{
    reveal(Seq::filter);
    assert(pieces.push(piece).drop_last() =~= pieces);
}


/// The bytes of `s` other than newlines, in order.
pub open spec fn without_newlines(s: Seq<u8>) -> Seq<u8> {
    s.filter(|b: u8| b != newline())
}

proof fn lemma_flatten_extend_last(pieces: Seq<Seq<u8>>, b: u8)
    requires
        pieces.len() >= 1,
    ensures
        pieces.update(pieces.len() - 1, pieces.last().push(b)).flatten() == pieces.flatten().push(b),
{
    let init = pieces.drop_last();
    assert(pieces =~= init.push(pieces.last()));
    assert(pieces.update(pieces.len() - 1, pieces.last().push(b)) =~= init.push(
        pieces.last().push(b),
    ));
    init.lemma_flatten_push(pieces.last().push(b));
    init.lemma_flatten_push(pieces.last());
    assert(init.flatten() + pieces.last().push(b) =~= (init.flatten() + pieces.last()).push(b));
}

proof fn lemma_split_lines_pieces(s: Seq<u8>)
    ensures
        split_lines(s).flatten() == without_newlines(s),
        forall|k: int| 0 <= k < split_lines(s).len() ==> !(#[trigger] split_lines(s)[k]).contains(
            newline(),
        ),
    decreases s.len(),
{
    reveal(Seq::filter);
    if s.len() == 0 {
        assert(split_lines(s) =~= seq![Seq::<u8>::empty()]);
        assert(seq![Seq::<u8>::empty()].drop_first() =~= Seq::<Seq<u8>>::empty());
        assert(Seq::<Seq<u8>>::empty().flatten() =~= Seq::<u8>::empty());
        assert(split_lines(s).flatten() =~= Seq::<u8>::empty());
        assert(without_newlines(s) =~= Seq::<u8>::empty());
    } else {
        let t = s.drop_last();
        let b = s.last();
        let pieces = split_lines(t);
        lemma_split_lines_pieces(t);
        lemma_split_lines_nonempty(t);
        if b == newline() {
            pieces.lemma_flatten_push(Seq::empty());
            assert(pieces.flatten() + Seq::<u8>::empty() =~= pieces.flatten());
            assert forall|k: int| 0 <= k < split_lines(s).len() implies !(
            #[trigger] split_lines(s)[k]).contains(newline()) by {
                if k < pieces.len() {
                    assert(split_lines(s)[k] == pieces[k]);
                } else {
                    assert(split_lines(s)[k] =~= Seq::<u8>::empty());
                }
            }
        } else {
            lemma_flatten_extend_last(pieces, b);
            assert forall|k: int| 0 <= k < split_lines(s).len() implies !(
            #[trigger] split_lines(s)[k]).contains(newline()) by {
                if k < pieces.len() - 1 {
                    assert(split_lines(s)[k] == pieces[k]);
                } else {
                    let last = pieces.last().push(b);
                    assert(split_lines(s)[k] == last);
                    assert(!pieces[pieces.len() - 1].contains(newline()));
                    if last.contains(newline()) {
                        let j = choose|j: int| 0 <= j < last.len() && last[j] == newline();
                        if j < last.len() - 1 {
                            assert(pieces.last()[j] == newline());
                        }
                    }
                }
            }
        }
    }
}

proof fn lemma_filter_entries_flatten(pieces: Seq<Seq<u8>>)
    ensures
        pieces.filter(is_entry_fn()).flatten() == pieces.flatten(),
        forall|k: int|
            0 <= k < pieces.filter(is_entry_fn()).len() ==> pieces.contains(
                #[trigger] pieces.filter(is_entry_fn())[k],
            ),
    decreases pieces.len(),
{
    let f = pieces.filter(is_entry_fn());
    if pieces.len() == 0 {
        reveal(Seq::filter);
    } else {
        let init = pieces.drop_last();
        let last = pieces.last();
        assert(pieces =~= init.push(last));
        lemma_filter_entries_flatten(init);
        lemma_filter_push_entry(init, last);
        init.lemma_flatten_push(last);
        let fi = init.filter(is_entry_fn());
        if is_entry(last) {
            fi.lemma_flatten_push(last);
        } else {
            assert(last =~= Seq::<u8>::empty());
            assert(init.flatten() + last =~= init.flatten());
        }
        assert forall|k: int| 0 <= k < f.len() implies pieces.contains(#[trigger] f[k]) by {
            if k < fi.len() {
                assert(f[k] == fi[k]);
                let j = choose|j: int| 0 <= j < init.len() && init[j] == fi[k];
                assert(pieces[j] == init[j]);
            } else {
                assert(f[k] == last);
                assert(pieces[pieces.len() - 1] == last);
            }
        }
    }
}

/// yt-dlp's output is split into its lines without losing or reordering
/// any byte: the entries are non-empty, hold no newline, and laid end to
/// end they give back the output with its newlines taken out.
pub proof fn lemma_playlist_entries_keep_every_byte(stdout: Seq<u8>)
    ensures
        forall|k: int|
            0 <= k < playlist_entries_spec(stdout).len() ==> {
                &&& (#[trigger] playlist_entries_spec(stdout)[k]).len() > 0
                &&& !playlist_entries_spec(stdout)[k].contains(newline())
            },
        playlist_entries_spec(stdout).flatten() == without_newlines(stdout),
{
    let pieces = split_lines(stdout);
    lemma_split_lines_pieces(stdout);
    lemma_filter_entries_flatten(pieces);
    let f = playlist_entries_spec(stdout);
    assert forall|k: int| 0 <= k < f.len() implies {
        &&& (#[trigger] f[k]).len() > 0
        &&& !f[k].contains(newline())
    } by {
        pieces.lemma_filter_pred(is_entry_fn(), k);
        let j = choose|j: int| 0 <= j < pieces.len() && pieces[j] == f[k];
        assert(!pieces[j].contains(newline()));
    }
}


/// `line` stands in `s` at `st` as a whole line: preceded by the start of `s`
/// or a newline, and followed by a newline or the end of `s`.
pub open spec fn is_line_at(s: Seq<u8>, line: Seq<u8>, st: int) -> bool {
    &&& 0 <= st
    &&& st + line.len() <= s.len()
    &&& s.subrange(st, st + line.len()) == line
    &&& (st == 0 || s[st - 1] == newline())
    &&& (st + line.len() == s.len() || s[st + line.len()] == newline())
}

/// `line` is one whole line of `s`, somewhere in it.
pub open spec fn is_whole_line(s: Seq<u8>, line: Seq<u8>) -> bool {
    exists|st: int| is_line_at(s, line, st)
}

/// Where piece `j` begins, when each piece is followed by one separator.
spec fn piece_start(pieces: Seq<Seq<u8>>, j: int) -> int
    decreases j,
{
    if j <= 0 {
        0
    } else {
        piece_start(pieces, j - 1) + pieces[j - 1].len() + 1
    }
}

/// Piece `j` of `pieces` stands in `s` where `piece_start` puts it; every
/// piece but the last is followed by a newline, and the last ends `s`.
spec fn piece_in_place(s: Seq<u8>, pieces: Seq<Seq<u8>>, j: int) -> bool {
    let st = piece_start(pieces, j);
    let end = st + pieces[j].len();
    &&& 0 <= st
    &&& end <= s.len()
    &&& s.subrange(st, end) == pieces[j]
    &&& (st == 0 || s[st - 1] == newline())
    &&& (j < pieces.len() - 1 ==> end < s.len() && s[end] == newline())
    &&& (j == pieces.len() - 1 ==> end == s.len())
}

proof fn lemma_piece_start_same_prefix(p: Seq<Seq<u8>>, q: Seq<Seq<u8>>, j: int)
    requires
        0 <= j <= p.len(),
        j <= q.len(),
        forall|i: int| 0 <= i < j ==> p[i] == q[i],
    ensures
        piece_start(p, j) == piece_start(q, j),
    decreases j,
{
    if j > 0 {
        lemma_piece_start_same_prefix(p, q, j - 1);
    }
}

proof fn lemma_piece_start_nonneg(p: Seq<Seq<u8>>, j: int)
    ensures
        piece_start(p, j) >= 0,
    decreases j,
{
    if j > 0 {
        lemma_piece_start_nonneg(p, j - 1);
    }
}

proof fn lemma_split_lines_in_place(s: Seq<u8>)
    ensures
        forall|j: int|
            0 <= j < split_lines(s).len() ==> #[trigger] piece_in_place(s, split_lines(s), j),
    decreases s.len(),
{
    let p = split_lines(s);
    if s.len() == 0 {
        assert(p =~= seq![Seq::<u8>::empty()]);
        assert forall|j: int| 0 <= j < p.len() implies #[trigger] piece_in_place(s, p, j) by {
            assert(s.subrange(0, 0) =~= p[0]);
        }
    } else {
        let t = s.drop_last();
        let b = s.last();
        let q = split_lines(t);
        lemma_split_lines_in_place(t);
        lemma_split_lines_nonempty(t);
        let last = q.len() - 1;
        assert(piece_in_place(t, q, last));
        assert forall|j: int| 0 <= j < p.len() implies #[trigger] piece_in_place(s, p, j) by {
            lemma_piece_start_nonneg(p, j);
            if b == newline() {
                assert(p == q.push(Seq::empty()));
                if j < q.len() {
                    lemma_piece_start_same_prefix(p, q, j);
                    assert(piece_in_place(t, q, j));
                    let st = piece_start(q, j);
                    assert(p[j] == q[j]);
                    assert(s.subrange(st, st + q[j].len()) =~= t.subrange(st, st + q[j].len()));
                    if st > 0 {
                        assert(s[st - 1] == t[st - 1]);
                    }
                    if j < last {
                        assert(s[st + q[j].len()] == t[st + q[j].len()]);
                    }
                } else {
                    lemma_piece_start_same_prefix(p, q, last);
                    assert(p[last] == q[last]);
                    assert(piece_start(p, j) == piece_start(q, last) + q[last].len() + 1);
                    assert(s.subrange(s.len() as int, s.len() as int) =~= p[j]);
                }
            } else {
                assert(p == q.update(last, q[last].push(b)));
                lemma_piece_start_same_prefix(p, q, j);
                assert(piece_in_place(t, q, j));
                let st = piece_start(q, j);
                if st > 0 {
                    assert(s[st - 1] == t[st - 1]);
                }
                if j < last {
                    assert(p[j] == q[j]);
                    assert(s.subrange(st, st + q[j].len()) =~= t.subrange(st, st + q[j].len()));
                    assert(s[st + q[j].len()] == t[st + q[j].len()]);
                } else {
                    assert(s.subrange(st, s.len() as int) =~= t.subrange(st, t.len() as int).push(b));
                }
            }
        }
    }
}

/// Every entry is a whole line of yt-dlp's output: it stands in the output
/// right after its start or a newline, and right before a newline or its
/// end. No line is ever cut at any other byte.
pub proof fn lemma_playlist_entries_are_whole_lines(stdout: Seq<u8>)
    ensures
        forall|k: int|
            0 <= k < playlist_entries_spec(stdout).len() ==> is_whole_line(
                stdout,
                #[trigger] playlist_entries_spec(stdout)[k],
            ),
{
    let pieces = split_lines(stdout);
    let f = playlist_entries_spec(stdout);
    lemma_split_lines_in_place(stdout);
    lemma_filter_entries_flatten(pieces);
    assert forall|k: int| 0 <= k < f.len() implies is_whole_line(stdout, #[trigger] f[k]) by {
        assert(pieces.contains(f[k]));
        let j = choose|j: int| 0 <= j < pieces.len() && pieces[j] == f[k];
        assert(piece_in_place(stdout, pieces, j));
        assert(is_line_at(stdout, f[k], piece_start(pieces, j)));
    }
}

impl YtDlp {
    /// Splits yt-dlp's output into its non-empty lines, which hold one JSON
    /// object each.
    pub fn playlist_entries(stdout: &[u8]) -> (r: Vec<Vec<u8>>)
        ensures
            r.deep_view() == playlist_entries_spec(stdout@),
    {
        let mut entries: Vec<Vec<u8>> = Vec::new();
        let mut current: Vec<u8> = Vec::new();
        let ghost mut done: Seq<Seq<u8>> = Seq::empty();
        let n = stdout.len();
        let mut i: usize = 0;
        assert(stdout@.take(0) =~= Seq::<u8>::empty());
        assert(done.push(current@) =~= split_lines(stdout@.take(0)));
        while i < n
            invariant
                n == stdout@.len(),
                i <= n,
                split_lines(stdout@.take(i as int)) == done.push(current@),
                entries.deep_view() == done.filter(is_entry_fn()),
            decreases n - i,
        {
            let b = stdout[i];
            let ghost prefix = stdout@.take(i as int);
            assert(stdout@.take(i + 1).drop_last() =~= prefix);
            assert(stdout@.take(i + 1).last() == b);
            if b == 10u8 {
                proof {
                    lemma_filter_push_entry(done, current@);
                    done = done.push(current@);
                }
                if current.len() > 0 {
                    let ghost old_entries = entries.deep_view();
                    let ghost piece = current@;
                    entries.push(current);
                    assert(entries@.last().deep_view() =~= piece);
                    assert(entries.deep_view() =~= old_entries.push(piece));
                } else {
                    assert(current@ =~= Seq::<u8>::empty());
                }
                current = Vec::new();
                assert(split_lines(stdout@.take(i + 1)) =~= done.push(current@));
            } else {
                let ghost old_current = current@;
                current.push(b);
                assert(split_lines(stdout@.take(i + 1)) =~= done.push(current@));
            }
            i = i + 1;
        }
        assert(stdout@.take(n as int) =~= stdout@);
        proof {
            lemma_filter_push_entry(done, current@);
        }
        if current.len() > 0 {
            let ghost old_entries = entries.deep_view();
            let ghost piece = current@;
            entries.push(current);
            assert(entries@.last().deep_view() =~= piece);
            assert(entries.deep_view() =~= old_entries.push(piece));
        } else {
            assert(current@ =~= Seq::<u8>::empty());
        }
        entries
    }

    /// Keeps, in order, the lines that could be read as a playlist item and
    /// drops the others.
    pub fn playlist_items(parsed: Vec<Option<PlaylistItem>>) -> (r: Vec<PlaylistItem>)
        ensures
            r@ == playlist_items_spec(parsed@),
    {
        let ghost all = parsed@;
        let total = parsed.len();
        let mut rest = parsed;
        let mut items: Vec<PlaylistItem> = Vec::new();
        let mut i: usize = 0;
        while rest.len() > 0
            invariant
                i + rest@.len() == all.len(),
                all.len() == total,
                rest@ == all.skip(i as int),
                items@ == playlist_items_spec(all.take(i as int)),
            decreases rest@.len(),
        {
            let next = rest.remove(0);
            assert(all.take(i + 1).drop_last() =~= all.take(i as int));
            assert(all.take(i + 1).last() == next);
            if let Some(item) = next {
                items.push(item);
            }
            assert(rest@ =~= all.skip(i + 1));
            i = i + 1;
        }
        assert(all.take(i as int) =~= all);
        items
    }
}

} // verus!
