//! What composing a recap guarantees as a whole: messages within Telegram's limit,
//! and no visible character lost.

use vstd::prelude::*;

use crate::services::rich_recap::{
    self, CONDENSED_SUMMARY_FALLBACK_UNIT_LIMIT, RICH_MESSAGE_UTF16_UNIT_LIMIT,
    RICH_RECAP_DETAILS_CLOSE, RICH_RECAP_DETAILS_OPEN,
};
use crate::services::rich_split::{self, Packing, Protection};
use crate::text;
use crate::utf16;

verus! {

// ---------------------------------------------------------------------------
// Sizes
// ---------------------------------------------------------------------------

/// The limit of the `k`th chunk.
pub open spec fn chunk_limit(k: int, first: int, later: int) -> int {
    if k == 0 {
        first
    } else {
        later
    }
}

/// A packing whose chunks keep their limits.
pub open spec fn within_limits(packing: Packing, first: int, later: int) -> bool {
    &&& packing.limit == chunk_limit(packing.closed.len() as int, first, later)
    &&& utf16::units(packing.current) <= packing.limit
    &&& forall|k: int|
        0 <= k < packing.closed.len() ==> utf16::units(#[trigger] packing.closed[k]) <= chunk_limit(
            k,
            first,
            later,
        )
}

/// Whether a block can start a chunk of `limit` code units.
pub open spec fn can_start(block: Seq<char>, limit: int) -> bool {
    limit >= 2 || block.len() == 0 || utf16::char_weight(block[0]) <= limit
}

proof fn lemma_placed_within(packing: Packing, block: Seq<char>, first: int, later: int)
    requires
        first >= 1,
        later >= 2,
        within_limits(packing, first, later),
        packing.closed.len() == 0 && packing.current.len() == 0 ==> can_start(block, first),
    ensures
        within_limits(rich_split::placed(packing, block, later), first, later),
        block.len() > 0 ==> rich_split::placed(packing, block, later).closed.len() > 0
            || rich_split::placed(
            packing,
            block,
            later,
        ).current.len() > 0,
        block.len() == 0 ==> rich_split::placed(packing, block, later) == packing,
        rich_split::placed(packing, block, later).closed.len() >= packing.closed.len(),
    decreases block.len(), packing.current.len(),
{
    if block.len() == 0 {
    } else if utf16::units(packing.current) + utf16::units(rich_split::gap(packing.current))
        + utf16::units(block)
        <= packing.limit {
        utf16::lemma_units_add(packing.current, rich_split::gap(packing.current));
        utf16::lemma_units_add(packing.current + rich_split::gap(packing.current), block);
    } else if packing.current.len() > 0 {
        let next = Packing {
            closed: packing.closed.push(packing.current),
            current: Seq::empty(),
            limit: later,
        };
        assert forall|k: int| 0 <= k < next.closed.len()
            implies utf16::units(#[trigger] next.closed[k])
            <= chunk_limit(k, first, later) by {
            if k < packing.closed.len() {
                assert(next.closed[k] == packing.closed[k]);
            }
        }
        lemma_placed_within(next, block, first, later);
    } else {
        let spans = rich_split::protected_spans(
            rich_split::lookahead(block, rich_split::rune_budget(block, packing.limit)),
            Protection::RichMarkdown,
        );
        rich_split::lemma_cut_with(block, packing.limit, spans);
        let (head, tail) = rich_split::cut_fragment(block, packing.limit, Protection::RichMarkdown);
        let next = Packing {
            closed: packing.closed.push(head),
            current: Seq::empty(),
            limit: later,
        };
        assert forall|k: int| 0 <= k < next.closed.len()
            implies utf16::units(#[trigger] next.closed[k])
            <= chunk_limit(k, first, later) by {
            if k < packing.closed.len() {
                assert(next.closed[k] == packing.closed[k]);
            }
        }
        lemma_placed_within(next, tail, first, later);
    }
}

proof fn lemma_placed_all_within(
    packing: Packing,
    blocks: Seq<Seq<char>>,
    first: int,
    later: int,
    i: int,
)
    requires
        0 <= i,
        first >= 1,
        later >= 2,
        within_limits(packing, first, later),
        all_filled(blocks),
        packing.closed.len() == 0 && packing.current.len() == 0 && i < blocks.len() ==> can_start(
            blocks[i],
            first,
        ),
    ensures
        within_limits(rich_split::placed_all(packing, blocks, later, i), first, later),
    decreases blocks.len() - i,
{
    if i < blocks.len() {
        lemma_placed_within(packing, blocks[i], first, later);
        lemma_placed_all_within(rich_split::placed(packing, blocks[i], later), blocks, first,
            later, i + 1);
    }
}

/// Packed chunks keep their limits, as long as the first block can start a chunk.
pub proof fn lemma_packed_within(blocks: Seq<Seq<char>>, first: int, later: int)
    requires
        first >= 1,
        later >= 2,
        all_filled(blocks),
        blocks.len() > 0 ==> can_start(blocks[0], first),
    ensures
        forall|k: int|
            0 <= k < rich_split::packed(blocks, first, later).len() ==> utf16::units(
                #[trigger] rich_split::packed(blocks, first, later)[k],
            ) <= chunk_limit(k, first, later),
{
    let start = Packing { closed: Seq::empty(), current: Seq::empty(), limit: first };
    lemma_placed_all_within(start, blocks, first, later, 0);
}

/// Whether no part is empty.
pub open spec fn all_filled(parts: Seq<Seq<char>>) -> bool {
    forall|k: int| 0 <= k < parts.len() ==> (#[trigger] parts[k]).len() > 0
}

proof fn lemma_filled_add(a: Seq<Seq<char>>, b: Seq<Seq<char>>)
    requires
        all_filled(a),
        all_filled(b),
    ensures
        all_filled(a + b),
{
    let whole = a + b;
    assert forall|k: int| 0 <= k < whole.len() implies (#[trigger] whole[k]).len() > 0 by {
        if k < a.len() {
            assert(whole[k] == a[k]);
        } else {
            assert(whole[k] == b[k - a.len()]);
        }
    }
}

proof fn lemma_blocks_filled(
    all: Seq<Seq<char>>,
    i: int,
    gathered: Seq<Seq<char>>,
    open: Option<Seq<char>>,
)
    requires
        0 <= i,
    ensures
        all_filled(rich_split::blocks_from(all, i, gathered, open)),
    decreases all.len() - i,
{
    assert(all_filled(rich_split::flushed(gathered)));
    if i < all.len() {
        let line = text::trimmed(all[i]);
        if rich_recap::fence_marker(line) is Some {
            lemma_blocks_filled(
                all,
                i + 1,
                gathered.push(all[i]),
                rich_split::fence_after(open, line),
            );
        } else if line.len() == 0 && open is None {
            lemma_blocks_filled(all, i + 1, Seq::empty(), None);
            lemma_filled_add(
                rich_split::flushed(gathered),
                rich_split::blocks_from(all, i + 1, Seq::empty(), None),
            );
        } else {
            lemma_blocks_filled(all, i + 1, gathered.push(all[i]), open);
        }
    }
}

proof fn lemma_headed_filled(blocks: Seq<Seq<char>>, i: int)
    requires
        0 <= i,
        all_filled(blocks),
    ensures
        all_filled(rich_split::headed_from(blocks, i)),
    decreases blocks.len() - i,
{
    if i < blocks.len() {
        if rich_split::is_heading(blocks[i]) && i + 1 < blocks.len() {
            lemma_headed_filled(blocks, i + 2);
            lemma_filled_add(
                seq![blocks[i] + "\n\n"@ + blocks[i + 1]],
                rich_split::headed_from(blocks, i + 2),
            );
        } else {
            lemma_headed_filled(blocks, i + 1);
            lemma_filled_add(seq![blocks[i]], rich_split::headed_from(blocks, i + 1));
        }
    }
}

/// The blocks of a text are not empty.
pub proof fn lemma_markdown_blocks_filled(s: Seq<char>)
    ensures
        all_filled(rich_split::markdown_blocks(s)),
{
    let all = text::pieces(rich_recap::normalized(s), '\n');
    lemma_blocks_filled(all, 0, Seq::empty(), None);
    lemma_headed_filled(rich_split::blocks_from(all, 0, Seq::empty(), None), 0);
}

/// Every message of a recap is within Telegram's limit. Left out is the one case in
/// which the condensed summary leaves room for a single code unit and the details
/// start with a character of two.
pub proof fn lemma_messages_fit(condensed: Seq<char>, details: Seq<Seq<char>>)
    requires
        rich_split::markdown_blocks(rich_split::joined_details(details)).len() > 0 ==> can_start(
            rich_split::markdown_blocks(rich_split::joined_details(details))[0],
            rich_split::first_body_limit(condensed),
        ),
    ensures
        forall|k: int|
            0 <= k < rich_split::composed(condensed, details).len() ==> utf16::units(
                #[trigger] rich_split::composed(condensed, details)[k],
            ) <= RICH_MESSAGE_UTF16_UNIT_LIMIT,
{
    rich_split::lemma_wrapper_is_small();
    let limit = RICH_MESSAGE_UTF16_UNIT_LIMIT as int;
    let alone = rich_split::condensed_messages(condensed, details);
    let chunks = rich_split::detail_chunks(condensed, details);
    let prefix = rich_split::first_prefix(condensed);
    let wrapped = rich_split::contained(chunks, prefix);
    let all = rich_split::composed(condensed, details);
    lemma_markdown_blocks_filled(rich_recap::normalized(condensed));
    lemma_packed_within(rich_split::markdown_blocks(rich_recap::normalized(condensed)), limit,
        limit);
    lemma_markdown_blocks_filled(rich_split::joined_details(details));
    assert(utf16::units(Seq::<char>::empty()) == 0);
    lemma_packed_within(
        rich_split::markdown_blocks(rich_split::joined_details(details)),
        rich_split::first_body_limit(condensed),
        rich_split::body_limit(),
    );
    assert forall|k: int| 0 <= k < all.len() implies utf16::units(#[trigger] all[k]) <= limit by {
        if k < alone.len() {
            assert(all[k] == alone[k]);
        } else {
            let j = k - alone.len();
            assert(all[k] == wrapped[j]);
            let front = if j == 0 {
                prefix
            } else {
                Seq::empty()
            };
            let open = RICH_RECAP_DETAILS_OPEN@;
            let close = RICH_RECAP_DETAILS_CLOSE@;
            utf16::lemma_units_add(front, open);
            utf16::lemma_units_add(front + open, chunks[j]);
            utf16::lemma_units_add(front + open + chunks[j], close);
            assert(utf16::units(chunks[j])
                <= chunk_limit(j, rich_split::first_body_limit(condensed),
                rich_split::body_limit()));
        }
    }
}

/// A fallback summary taken from the details is at most 120 code units long.
pub proof fn lemma_fallback_fits(details: Seq<Seq<char>>, default_summary: Seq<char>)
    ensures
        utf16::units(rich_split::fallback_summary(details, default_summary))
            <= CONDENSED_SUMMARY_FALLBACK_UNIT_LIMIT
            || rich_split::fallback_summary(details, default_summary)
                == text::trimmed(default_summary),
{
    let joined = text::trimmed(text::join_spec(details, " "@));
    let limit = CONDENSED_SUMMARY_FALLBACK_UNIT_LIMIT as int;
    if joined.len() > 0 {
        rich_split::lemma_cut_with(
            joined,
            limit,
            rich_split::protected_spans(rich_split::lookahead(joined,
                rich_split::rune_budget(joined, limit)), Protection::RichMarkdown),
        );
        let head = rich_split::cut_fragment(joined, limit, Protection::RichMarkdown).0;
        let (a, b) = text::lemma_trimmed_shape(head);
        utf16::lemma_units_subrange(head, a, b);
    } else {
        let head = rich_split::cut_fragment(joined, limit, Protection::RichMarkdown).0;
        assert(head.len() == 0);
        text::lemma_trim_idempotent(head);
    }
}

// ---------------------------------------------------------------------------
// Visible characters
// ---------------------------------------------------------------------------

proof fn lemma_visible_one(c: char)
    ensures
        rich_split::visible(seq![c]) == if text::is_white(c) {
            Seq::<char>::empty()
        } else {
            seq![c]
        },
{
    let one = seq![c];
    assert(one.drop_last() =~= Seq::<char>::empty());
    assert(rich_split::visible(one.drop_last()) =~= Seq::<char>::empty());
    assert(rich_split::visible(one) =~= if text::is_white(c) {
        Seq::<char>::empty()
    } else {
        seq![c]
    });
}

/// Replacing whitespace by whitespace changes no visible character.
proof fn lemma_visible_replaced_from(s: Seq<char>, pattern: Seq<char>, to: Seq<char>, i: int)
    requires
        0 <= i <= s.len(),
        forall|k: int| 0 <= k < pattern.len() ==> text::is_white(#[trigger] pattern[k]),
        forall|k: int| 0 <= k < to.len() ==> text::is_white(#[trigger] to[k]),
    ensures
        rich_split::visible(text::replaced_from(s, pattern, to, i)) == rich_split::visible(
            s.subrange(i, s.len() as int),
        ),
    decreases s.len() - i,
{
    let rest = s.subrange(i, s.len() as int);
    if i < s.len() {
        if pattern.len() > 0 && text::matches_at(s, pattern, i) {
            lemma_visible_replaced_from(s, pattern, to, i + pattern.len());
            let after = s.subrange(i + pattern.len(), s.len() as int);
            assert(rest =~= pattern + after);
            rich_split::lemma_visible_add(pattern, after);
            rich_split::lemma_visible_white(pattern);
            rich_split::lemma_visible_add(to,
                text::replaced_from(s, pattern, to, i + pattern.len()));
            rich_split::lemma_visible_white(to);
            assert(rich_split::visible(text::replaced_from(s, pattern, to, i))
                =~= rich_split::visible(rest));
        } else {
            lemma_visible_replaced_from(s, pattern, to, i + 1);
            let after = s.subrange(i + 1, s.len() as int);
            assert(rest =~= seq![s[i]] + after);
            rich_split::lemma_visible_add(seq![s[i]], after);
            rich_split::lemma_visible_add(seq![s[i]], text::replaced_from(s, pattern, to, i + 1));
        }
    } else {
        assert(rest =~= Seq::<char>::empty());
    }
}

/// Normalizing line endings keeps every visible character.
pub proof fn lemma_visible_normalized(s: Seq<char>)
    ensures
        rich_split::visible(rich_recap::normalized(s)) == rich_split::visible(s),
{
    reveal_strlit("\r\n");
    reveal_strlit("\r");
    reveal_strlit("\n");
    let a = text::replaced(s, "\r\n"@, "\n"@);
    let b = text::replaced(a, "\r"@, "\n"@);
    lemma_visible_replaced_from(s, "\r\n"@, "\n"@, 0);
    assert(s.subrange(0, s.len() as int) =~= s);
    lemma_visible_replaced_from(a, "\r"@, "\n"@, 0);
    assert(a.subrange(0, a.len() as int) =~= a);
    rich_split::lemma_visible_trimmed(b);
}

/// Joining with whitespace adds no visible character.
proof fn lemma_visible_join(parts: Seq<Seq<char>>, separator: Seq<char>)
    requires
        forall|k: int| 0 <= k < separator.len() ==> text::is_white(#[trigger] separator[k]),
    ensures
        rich_split::visible(text::join_spec(parts, separator)) == rich_split::visible_all(parts),
    decreases parts.len(),
{
    if parts.len() == 0 {
        assert(rich_split::visible(Seq::<char>::empty()) =~= Seq::<char>::empty());
    } else if parts.len() == 1 {
        assert(parts =~= seq![parts[0]]);
        rich_split::lemma_visible_all_one(parts[0]);
    } else {
        let front = text::join_spec(parts.drop_last(), separator);
        lemma_visible_join(parts.drop_last(), separator);
        rich_split::lemma_visible_add(front, separator);
        rich_split::lemma_visible_add(front + separator, parts.last());
        rich_split::lemma_visible_white(separator);
        assert(rich_split::visible(text::join_spec(parts, separator))
            =~= rich_split::visible_all(parts));
    }
}

/// Splitting at line breaks loses no visible character.
proof fn lemma_visible_pieces(s: Seq<char>, start: int, i: int)
    requires
        0 <= start <= i <= s.len(),
    ensures
        rich_split::visible_all(text::split_from(s, '\n', start, i)) == rich_split::visible(
            s.subrange(start, s.len() as int),
        ),
    decreases s.len() - i,
{
    let rest = s.subrange(start, s.len() as int);
    if i >= s.len() {
        rich_split::lemma_visible_all_one(rest);
    } else if s[i] == '\n' {
        lemma_visible_pieces(s, i + 1, i + 1);
        let piece = s.subrange(start, i);
        let after = s.subrange(i + 1, s.len() as int);
        assert(rest =~= piece + seq!['\n'] + after);
        rich_split::lemma_visible_add(piece + seq!['\n'], after);
        rich_split::lemma_visible_add(piece, seq!['\n']);
        lemma_visible_one('\n');
        rich_split::lemma_visible_all_add(seq![piece], text::split_from(s, '\n', i + 1, i + 1));
        rich_split::lemma_visible_all_one(piece);
        assert(rich_split::visible_all(text::split_from(s, '\n', start, i))
            =~= rich_split::visible(rest));
    } else {
        lemma_visible_pieces(s, start, i + 1);
    }
}

proof fn lemma_visible_flushed(gathered: Seq<Seq<char>>)
    ensures
        rich_split::visible_all(rich_split::flushed(gathered)) == rich_split::visible_all(gathered),
{
    reveal_strlit("\n");
    let joined = text::join_spec(gathered, "\n"@);
    lemma_visible_join(gathered, "\n"@);
    rich_split::lemma_visible_trimmed(joined);
    let block = text::trimmed(joined);
    if block.len() == 0 {
        assert(block =~= Seq::<char>::empty());
        assert(rich_split::visible(block) =~= Seq::<char>::empty());
    } else {
        rich_split::lemma_visible_all_one(block);
    }
}

proof fn lemma_visible_blocks(
    all: Seq<Seq<char>>,
    i: int,
    gathered: Seq<Seq<char>>,
    open: Option<Seq<char>>,
)
    requires
        0 <= i <= all.len(),
    ensures
        rich_split::visible_all(rich_split::blocks_from(all, i, gathered, open))
            == rich_split::visible_all(gathered) + rich_split::visible_all(
            all.subrange(i, all.len() as int),
        ),
    decreases all.len() - i,
{
    let rest = all.subrange(i, all.len() as int);
    if i >= all.len() {
        lemma_visible_flushed(gathered);
        assert(rest =~= Seq::<Seq<char>>::empty());
        assert(rich_split::visible_all(gathered) + rich_split::visible_all(rest)
            =~= rich_split::visible_all(gathered));
    } else {
        let line = text::trimmed(all[i]);
        let after = all.subrange(i + 1, all.len() as int);
        assert(rest =~= seq![all[i]] + after);
        rich_split::lemma_visible_all_add(seq![all[i]], after);
        rich_split::lemma_visible_all_one(all[i]);
        let more = gathered.push(all[i]);
        assert(more.drop_last() =~= gathered);
        assert(rich_split::visible_all(more) =~= rich_split::visible_all(gathered)
            + rich_split::visible(all[i]));
        if rich_recap::fence_marker(line) is Some {
            lemma_visible_blocks(all, i + 1, more, rich_split::fence_after(open, line));
            assert(rich_split::visible_all(more) + rich_split::visible_all(after)
                =~= rich_split::visible_all(gathered) + rich_split::visible_all(
                rest,
            ));
        } else if line.len() == 0 && open is None {
            lemma_visible_blocks(all, i + 1, Seq::empty(), None);
            lemma_visible_flushed(gathered);
            rich_split::lemma_visible_all_add(rich_split::flushed(gathered),
                rich_split::blocks_from(all, i + 1, Seq::empty(), None));
            rich_split::lemma_visible_trimmed(all[i]);
            assert(rich_split::visible(line) =~= Seq::<char>::empty());
            assert(rich_split::visible_all(rich_split::blocks_from(all, i, gathered, open))
                =~= rich_split::visible_all(gathered)
                + rich_split::visible_all(rest));
        } else {
            lemma_visible_blocks(all, i + 1, more, open);
            assert(rich_split::visible_all(more) + rich_split::visible_all(after)
                =~= rich_split::visible_all(gathered) + rich_split::visible_all(
                rest,
            ));
        }
    }
}

proof fn lemma_visible_headed(blocks: Seq<Seq<char>>, i: int)
    requires
        0 <= i <= blocks.len(),
    ensures
        rich_split::visible_all(rich_split::headed_from(blocks, i)) == rich_split::visible_all(
            blocks.subrange(i, blocks.len() as int),
        ),
    decreases blocks.len() - i,
{
    let rest = blocks.subrange(i, blocks.len() as int);
    if i < blocks.len() {
        if rich_split::is_heading(blocks[i]) && i + 1 < blocks.len() {
            lemma_visible_headed(blocks, i + 2);
            reveal_strlit("\n\n");
            let both = blocks[i] + "\n\n"@ + blocks[i + 1];
            rich_split::lemma_visible_add(blocks[i] + "\n\n"@, blocks[i + 1]);
            rich_split::lemma_visible_add(blocks[i], "\n\n"@);
            rich_split::lemma_visible_white("\n\n"@);
            let after = blocks.subrange(i + 2, blocks.len() as int);
            assert(rest =~= seq![blocks[i]] + seq![blocks[i + 1]] + after);
            rich_split::lemma_visible_all_add(seq![blocks[i]] + seq![blocks[i + 1]], after);
            rich_split::lemma_visible_all_add(seq![blocks[i]], seq![blocks[i + 1]]);
            rich_split::lemma_visible_all_one(blocks[i]);
            rich_split::lemma_visible_all_one(blocks[i + 1]);
            rich_split::lemma_visible_all_add(seq![both], rich_split::headed_from(blocks, i + 2));
            rich_split::lemma_visible_all_one(both);
            assert(rich_split::visible_all(rich_split::headed_from(blocks, i))
                =~= rich_split::visible_all(rest));
        } else {
            lemma_visible_headed(blocks, i + 1);
            let after = blocks.subrange(i + 1, blocks.len() as int);
            assert(rest =~= seq![blocks[i]] + after);
            rich_split::lemma_visible_all_add(seq![blocks[i]], after);
            rich_split::lemma_visible_all_add(seq![blocks[i]],
                rich_split::headed_from(blocks, i + 1));
        }
    } else {
        assert(rest =~= Seq::<Seq<char>>::empty());
    }
}

/// The blocks of a text hold its visible characters in order.
pub proof fn lemma_visible_markdown_blocks(s: Seq<char>)
    ensures
        rich_split::visible_all(rich_split::markdown_blocks(s)) == rich_split::visible(s),
{
    let normal = rich_recap::normalized(s);
    lemma_visible_normalized(s);
    if normal.len() == 0 {
        assert(normal =~= Seq::<char>::empty());
        assert(rich_split::visible(normal) =~= Seq::<char>::empty());
    } else {
        let all = text::pieces(normal, '\n');
        lemma_visible_pieces(normal, 0, 0);
        assert(normal.subrange(0, normal.len() as int) =~= normal);
        lemma_visible_blocks(all, 0, Seq::empty(), None);
        assert(all.subrange(0, all.len() as int) =~= all);
        let blocks = rich_split::blocks_from(all, 0, Seq::empty(), None);
        lemma_visible_headed(blocks, 0);
        assert(blocks.subrange(0, blocks.len() as int) =~= blocks);
        assert(rich_split::visible_all(Seq::<Seq<char>>::empty()) + rich_split::visible_all(all)
            =~= rich_split::visible_all(all));
    }
}

/// The visible characters of a packing.
pub open spec fn visible_packing(packing: Packing) -> Seq<char> {
    rich_split::visible_all(packing.closed) + rich_split::visible(packing.current)
}

proof fn lemma_visible_placed(packing: Packing, block: Seq<char>, later: int)
    requires
        packing.limit >= 0,
        later >= 0,
    ensures
        visible_packing(rich_split::placed(packing, block, later)) == visible_packing(packing)
            + rich_split::visible(
            block,
        ),
        rich_split::placed(packing, block, later).limit >= 0,
    decreases block.len(), packing.current.len(),
{
    if block.len() == 0 {
        assert(block =~= Seq::<char>::empty());
        assert(visible_packing(packing) + rich_split::visible(block) =~= visible_packing(packing));
    } else if utf16::units(packing.current) + utf16::units(rich_split::gap(packing.current))
        + utf16::units(block)
        <= packing.limit {
        reveal_strlit("\n\n");
        let g = rich_split::gap(packing.current);
        rich_split::lemma_visible_white(g);
        rich_split::lemma_visible_add(packing.current, g);
        rich_split::lemma_visible_add(packing.current + g, block);
        assert(visible_packing(rich_split::placed(packing, block, later))
            =~= visible_packing(packing)
            + rich_split::visible(block));
    } else if packing.current.len() > 0 {
        let next = Packing {
            closed: packing.closed.push(packing.current),
            current: Seq::empty(),
            limit: later,
        };
        lemma_visible_placed(next, block, later);
        assert(next.closed.drop_last() =~= packing.closed);
        assert(visible_packing(next) =~= visible_packing(packing));
    } else {
        let spans = rich_split::protected_spans(
            rich_split::lookahead(block, rich_split::rune_budget(block, packing.limit)),
            Protection::RichMarkdown,
        );
        rich_split::lemma_cut_with(block, packing.limit, spans);
        rich_split::lemma_cut_keeps_visible(block, packing.limit, spans);
        let (head, tail) = rich_split::cut_fragment(block, packing.limit, Protection::RichMarkdown);
        let next = Packing {
            closed: packing.closed.push(head),
            current: Seq::empty(),
            limit: later,
        };
        lemma_visible_placed(next, tail, later);
        assert(next.closed.drop_last() =~= packing.closed);
        assert(packing.current =~= Seq::<char>::empty());
        assert(visible_packing(next) + rich_split::visible(tail) =~= visible_packing(packing)
            + rich_split::visible(
            block,
        ));
    }
}

proof fn lemma_visible_placed_all(packing: Packing, blocks: Seq<Seq<char>>, later: int, i: int)
    requires
        0 <= i <= blocks.len(),
        packing.limit >= 0,
        later >= 0,
    ensures
        visible_packing(rich_split::placed_all(packing, blocks, later, i))
            == visible_packing(packing)
            + rich_split::visible_all(blocks.subrange(i, blocks.len() as int)),
    decreases blocks.len() - i,
{
    let rest = blocks.subrange(i, blocks.len() as int);
    if i < blocks.len() {
        lemma_visible_placed(packing, blocks[i], later);
        let next = rich_split::placed(packing, blocks[i], later);
        lemma_visible_placed_all(next, blocks, later, i + 1);
        let after = blocks.subrange(i + 1, blocks.len() as int);
        assert(rest =~= seq![blocks[i]] + after);
        rich_split::lemma_visible_all_add(seq![blocks[i]], after);
        rich_split::lemma_visible_all_one(blocks[i]);
        assert(visible_packing(next) + rich_split::visible_all(after) =~= visible_packing(packing)
            + rich_split::visible_all(rest));
    } else {
        assert(rest =~= Seq::<Seq<char>>::empty());
        assert(visible_packing(packing) + rich_split::visible_all(rest)
            =~= visible_packing(packing));
    }
}

/// Packing loses no visible character.
pub proof fn lemma_visible_packed(blocks: Seq<Seq<char>>, first: int, later: int)
    requires
        first >= 1,
        later >= 1,
    ensures
        rich_split::visible_all(rich_split::packed(blocks, first, later))
            == rich_split::visible_all(blocks),
{
    let start = Packing { closed: Seq::empty(), current: Seq::empty(), limit: first };
    lemma_visible_placed_all(start, blocks, later, 0);
    let end = rich_split::placed_all(start, blocks, later, 0);
    assert(blocks.subrange(0, blocks.len() as int) =~= blocks);
    assert(visible_packing(start) =~= Seq::<char>::empty());
    if end.current.len() == 0 {
        assert(end.current =~= Seq::<char>::empty());
        assert(visible_packing(end) =~= rich_split::visible_all(end.closed));
    } else {
        assert(end.closed.push(end.current).drop_last() =~= end.closed);
        assert(rich_split::visible_all(end.closed.push(end.current)) =~= visible_packing(end));
    }
    assert(rich_split::visible_all(rich_split::packed(blocks, first, later))
        =~= rich_split::visible_all(blocks));
}

proof fn lemma_visible_filled(summaries: Seq<Seq<char>>, i: int)
    requires
        0 <= i <= summaries.len(),
    ensures
        rich_split::visible_all(rich_split::filled_from(summaries, i)) == rich_split::visible_all(
            summaries.subrange(i, summaries.len() as int),
        ),
    decreases summaries.len() - i,
{
    let rest = summaries.subrange(i, summaries.len() as int);
    if i < summaries.len() {
        lemma_visible_filled(summaries, i + 1);
        let after = summaries.subrange(i + 1, summaries.len() as int);
        assert(rest =~= seq![summaries[i]] + after);
        rich_split::lemma_visible_all_add(seq![summaries[i]], after);
        rich_split::lemma_visible_all_one(summaries[i]);
        lemma_visible_normalized(summaries[i]);
        let normal = rich_recap::normalized(summaries[i]);
        if normal.len() == 0 {
            assert(normal =~= Seq::<char>::empty());
            assert(rich_split::visible(normal) =~= Seq::<char>::empty());
            assert(rich_split::visible_all(rich_split::filled_from(summaries, i))
                =~= rich_split::visible_all(rest));
        } else {
            rich_split::lemma_visible_all_add(seq![normal],
                rich_split::filled_from(summaries, i + 1));
            rich_split::lemma_visible_all_one(normal);
        }
    } else {
        assert(rest =~= Seq::<Seq<char>>::empty());
    }
}

/// Composing a recap loses no visible character: the condensed summary stands whole
/// in its own messages or before the first container, and the containers hold the
/// details in order.
pub proof fn lemma_composing_keeps_text(condensed: Seq<char>, details: Seq<Seq<char>>)
    ensures
        rich_split::visible_all(rich_split::detail_chunks(condensed, details))
            == rich_split::visible_all(details),
        rich_split::joined_details(details).len() > 0 && !rich_split::prefix_overflows(condensed)
            ==> rich_split::visible(
            rich_split::first_prefix(condensed),
        ) == rich_split::visible(condensed),
        rich_split::joined_details(details).len() == 0 || rich_split::prefix_overflows(condensed)
            ==> rich_split::visible_all(
            rich_split::condensed_messages(condensed, details),
        ) == rich_split::visible(condensed),
{
    reveal_strlit("\n\n");
    rich_split::lemma_wrapper_is_small();
    let joined = rich_split::joined_details(details);
    lemma_visible_join(rich_split::filled_from(details, 0), "\n\n"@);
    lemma_visible_filled(details, 0);
    assert(details.subrange(0, details.len() as int) =~= details);
    if joined.len() == 0 {
        assert(joined =~= Seq::<char>::empty());
        assert(rich_split::visible(joined) =~= Seq::<char>::empty());
        assert(rich_split::visible_all(rich_split::detail_chunks(condensed, details))
            =~= rich_split::visible_all(details));
    } else {
        lemma_visible_markdown_blocks(joined);
        lemma_visible_packed(rich_split::markdown_blocks(joined),
            rich_split::first_body_limit(condensed), rich_split::body_limit());
    }
    let normal = rich_recap::normalized(condensed);
    lemma_visible_normalized(condensed);
    lemma_visible_markdown_blocks(normal);
    lemma_visible_packed(
        rich_split::markdown_blocks(normal),
        RICH_MESSAGE_UTF16_UNIT_LIMIT as int,
        RICH_MESSAGE_UTF16_UNIT_LIMIT as int,
    );
    if normal.len() == 0 {
        assert(normal =~= Seq::<char>::empty());
    } else {
        rich_split::lemma_visible_add(normal, "\n\n"@);
        rich_split::lemma_visible_white("\n\n"@);
        assert(rich_split::visible(rich_split::summary_prefix(condensed))
            =~= rich_split::visible(normal));
    }
}

} // verus!
