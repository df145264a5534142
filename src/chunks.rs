use vstd::prelude::*;
use vstd::utf8::encode_utf8;

verus! {

/// Number of bytes in the UTF-8 encoding of a text.
pub open spec fn byte_len(s: Seq<char>) -> nat {
    encode_utf8(s).len()
}

/// The views of a sequence of strings.
pub open spec fn texts(v: Seq<String>) -> Seq<Seq<char>> {
    v.map_values(|s: String| s@)
}

/// Lines joined by newlines.
pub open spec fn join(g: Seq<Seq<char>>) -> Seq<char>
    decreases g.len(),
{
    if g.len() == 0 {
        Seq::empty()
    } else if g.len() == 1 {
        g[0]
    } else {
        join(g.drop_last()) + seq!['\n'] + g.last()
    }
}

/// The joined text of each group of lines.
pub open spec fn joined(gs: Seq<Seq<Seq<char>>>) -> Seq<Seq<char>> {
    gs.map_values(|g: Seq<Seq<char>>| join(g))
}

/// The groups of lines, one after another.
pub open spec fn concat_all(gs: Seq<Seq<Seq<char>>>) -> Seq<Seq<char>>
    decreases gs.len(),
{
    if gs.len() == 0 {
        Seq::empty()
    } else {
        concat_all(gs.drop_last()) + gs.last()
    }
}

/// Greedy packing of `lines` after the groups `done` were completed and the
/// lines `cur` are in the open chunk. Before a line is added, an open chunk that
/// it would take over the budget is closed; after it is added, a chunk that has
/// reached the budget is closed.
pub open spec fn pack(
    lines: Seq<Seq<char>>,
    max: nat,
    done: Seq<Seq<Seq<char>>>,
    cur: Seq<Seq<char>>,
) -> Seq<Seq<Seq<char>>>
    decreases lines.len(),
{
    if lines.len() == 0 {
        if cur.len() == 0 {
            done
        } else {
            done.push(cur)
        }
    } else {
        let line = lines[0];
        let flush_first = cur.len() > 0 && byte_len(join(cur.push(line))) > max;
        let done1 = if flush_first {
            done.push(cur)
        } else {
            done
        };
        let cur1 = if flush_first {
            Seq::<Seq<char>>::empty()
        } else {
            cur
        };
        let cur2 = cur1.push(line);
        if byte_len(join(cur2)) >= max {
            pack(lines.drop_first(), max, done1.push(cur2), Seq::empty())
        } else {
            pack(lines.drop_first(), max, done1, cur2)
        }
    }
}

/// The runs of consecutive lines that make up the chunks.
pub open spec fn line_groups(lines: Seq<Seq<char>>, max: nat) -> Seq<Seq<Seq<char>>> {
    pack(lines, max, Seq::empty(), Seq::empty())
}

/// The chunks that the aggregator makes of `lines` with a budget of `max` bytes.
pub open spec fn chunks_of(lines: Seq<Seq<char>>, max: nat) -> Seq<Seq<char>> {
    joined(line_groups(lines, max))
}

pub proof fn lemma_byte_len_concat(a: Seq<char>, b: Seq<char>)
    ensures
        encode_utf8(a + b) == encode_utf8(a) + encode_utf8(b),
        byte_len(a + b) == byte_len(a) + byte_len(b),
    decreases a.len(),
{
    if a.len() == 0 {
        assert(a + b =~= b);
        assert(encode_utf8(a) =~= Seq::<u8>::empty());
        assert(encode_utf8(a) + encode_utf8(b) =~= encode_utf8(b));
    } else {
        lemma_byte_len_concat(a.drop_first(), b);
        assert((a + b).drop_first() =~= a.drop_first() + b);
        assert((a + b)[0] == a[0]);
        let e = vstd::utf8::encode_scalar(a[0] as u32);
        assert(e + (encode_utf8(a.drop_first()) + encode_utf8(b)) =~= (e + encode_utf8(
            a.drop_first(),
        )) + encode_utf8(b));
    }
}

pub proof fn lemma_byte_len_newline()
    ensures
        byte_len(seq!['\n']) == 1,
{
    let s = seq!['\n'];
    assert(s.drop_first() =~= Seq::<char>::empty());
    assert(s[0] as u32 == 10u32) by {
        vstd::utf8::char_u32_cast(s[0], 10u32);
    };
    assert(vstd::utf8::has_width_1_encoding(10u32));
    assert(encode_utf8(s.drop_first()) =~= Seq::<u8>::empty());
    assert(vstd::utf8::encode_scalar(10u32).len() == 1);
}

pub proof fn lemma_join_push(g: Seq<Seq<char>>, line: Seq<char>)
    ensures
        g.len() == 0 ==> join(g.push(line)) == line,
        g.len() > 0 ==> join(g.push(line)) == join(g) + seq!['\n'] + line,
        g.len() > 0 ==> byte_len(join(g.push(line))) == byte_len(join(g)) + 1 + byte_len(line),
{
    assert(g.push(line).drop_last() =~= g);
    if g.len() > 0 {
        lemma_byte_len_concat(join(g), seq!['\n']);
        lemma_byte_len_concat(join(g) + seq!['\n'], line);
        lemma_byte_len_newline();
    }
}

proof fn lemma_concat_all_push(gs: Seq<Seq<Seq<char>>>, g: Seq<Seq<char>>)
    ensures
        concat_all(gs.push(g)) == concat_all(gs) + g,
{
    assert(gs.push(g).drop_last() =~= gs);
}

/// A chunk that fits the budget, or that is one of `all` and alone exceeds it.
pub open spec fn within_budget(c: Seq<char>, all: Seq<Seq<char>>, max: nat) -> bool {
    byte_len(c) <= max || (all.contains(c) && byte_len(c) > max)
}

proof fn lemma_pack(
    all: Seq<Seq<char>>,
    lines: Seq<Seq<char>>,
    max: nat,
    done: Seq<Seq<Seq<char>>>,
    cur: Seq<Seq<char>>,
)
    requires
        forall|k: int| 0 <= k < lines.len() ==> all.contains(#[trigger] lines[k]),
        forall|k: int|
            0 <= k < done.len() ==> within_budget(join(#[trigger] done[k]), all, max)
                && done[k].len() > 0,
        cur.len() > 0 ==> byte_len(join(cur)) < max,
    ensures
        ({
            let r = pack(lines, max, done, cur);
            &&& concat_all(r) == concat_all(done) + cur + lines
            &&& forall|k: int|
                0 <= k < r.len() ==> within_budget(join(#[trigger] r[k]), all, max) && r[k].len()
                    > 0
        }),
    decreases lines.len(),
{
    if lines.len() == 0 {
        assert(cur + lines =~= cur);
        if cur.len() > 0 {
            lemma_concat_all_push(done, cur);
            assert forall|k: int| 0 <= k < done.push(cur).len() implies within_budget(
                join(#[trigger] done.push(cur)[k]),
                all,
                max,
            ) && done.push(cur)[k].len() > 0 by {
                if k < done.len() {
                    assert(done.push(cur)[k] == done[k]);
                }
            }
        } else {
            assert(concat_all(done) + cur =~= concat_all(done));
        }
    } else {
        let line = lines[0];
        let rest = lines.drop_first();
        assert(all.contains(lines[0]));
        assert forall|k: int| 0 <= k < rest.len() implies all.contains(#[trigger] rest[k]) by {
            assert(rest[k] == lines[k + 1]);
        }
        lemma_join_push(cur, line);
        let flush_first = cur.len() > 0 && byte_len(join(cur.push(line))) > max;
        let done1 = if flush_first {
            done.push(cur)
        } else {
            done
        };
        let cur1 = if flush_first {
            Seq::<Seq<char>>::empty()
        } else {
            cur
        };
        if flush_first {
            lemma_concat_all_push(done, cur);
        }
        assert forall|k: int| 0 <= k < done1.len() implies within_budget(
            join(#[trigger] done1[k]),
            all,
            max,
        ) && done1[k].len() > 0 by {
            if k < done.len() {
                assert(done1[k] == done[k]);
            }
        }
        assert(concat_all(done1) + cur1 =~= concat_all(done) + cur);
        lemma_join_push(cur1, line);
        let cur2 = cur1.push(line);
        assert(within_budget(join(cur2), all, max));
        assert(concat_all(done) + cur + lines =~= concat_all(done1) + cur2 + rest) by {
            assert(lines =~= seq![line] + rest);
        }
        if byte_len(join(cur2)) >= max {
            let done2 = done1.push(cur2);
            lemma_concat_all_push(done1, cur2);
            assert forall|k: int| 0 <= k < done2.len() implies within_budget(
                join(#[trigger] done2[k]),
                all,
                max,
            ) && done2[k].len() > 0 by {
                if k < done1.len() {
                    assert(done2[k] == done1[k]);
                }
            }
            lemma_pack(all, rest, max, done2, Seq::empty());
            assert(concat_all(done2) + Seq::<Seq<char>>::empty() + rest =~= concat_all(done1)
                + cur2 + rest);
            assert(pack(lines, max, done, cur) == pack(rest, max, done2, Seq::empty()));
        } else {
            lemma_pack(all, rest, max, done1, cur2);
            assert(pack(lines, max, done, cur) == pack(rest, max, done1, cur2));
        }
    }
}

/// The chunks are, in order, the newline-joined runs of consecutive input
/// lines; each run holds at least one line, and the runs, one after another,
/// are exactly the input: no line is lost, moved or repeated.
pub proof fn lemma_chunks_keep_lines(lines: Seq<Seq<char>>, max: nat)
    ensures
        chunks_of(lines, max) == joined(line_groups(lines, max)),
        concat_all(line_groups(lines, max)) == lines,
        forall|k: int|
            0 <= k < line_groups(lines, max).len() ==> (#[trigger] line_groups(lines, max)[k]).len()
                > 0,
{
    assert forall|k: int| 0 <= k < lines.len() implies lines.contains(#[trigger] lines[k]) by {}
    let e = Seq::<Seq<Seq<char>>>::empty();
    lemma_pack(lines, lines, max, e, Seq::empty());
    assert(concat_all(e) + Seq::<Seq<char>>::empty() + lines =~= lines);
}

/// Every chunk fits the byte budget, but for a chunk that is a single input
/// line which alone exceeds it.
pub proof fn lemma_chunks_within_budget(lines: Seq<Seq<char>>, max: nat)
    ensures
        forall|k: int|
            0 <= k < chunks_of(lines, max).len() ==> within_budget(
                #[trigger] chunks_of(lines, max)[k],
                lines,
                max,
            ),
{
    assert forall|k: int| 0 <= k < lines.len() implies lines.contains(#[trigger] lines[k]) by {}
    lemma_pack(lines, lines, max, Seq::empty(), Seq::empty());
    let gs = line_groups(lines, max);
    assert forall|k: int| 0 <= k < chunks_of(lines, max).len() implies within_budget(
        #[trigger] chunks_of(lines, max)[k],
        lines,
        max,
    ) by {
        assert(chunks_of(lines, max)[k] == join(gs[k]));
    }
}

/// Relies on `str::len`: the exact number of bytes in the text's UTF-8
/// encoding, which for any `str` fits in `usize`.
#[verifier::external_body]
pub(crate) fn byte_length(s: &str) -> (r: usize)
    ensures
        r == byte_len(s@),
{
    s.len()
}

/// Packs `lines`, in order, into newline-joined chunks of at most `max_bytes`
/// bytes; a line that alone reaches the budget closes its chunk at once.
pub fn aggregate_chunks(lines: &Vec<String>, max_bytes: usize) -> (r: Vec<String>)
    ensures
        texts(r@) == chunks_of(texts(lines@), max_bytes as nat),
        lines@.len() == 0 ==> r@.len() == 0,
{
    let ghost lv = texts(lines@);
    let mut chunks: Vec<String> = Vec::new();
    let mut current = String::new();
    let mut open_lines: usize = 0;
    let ghost mut groups: Seq<Seq<Seq<char>>> = Seq::empty();
    let ghost mut cur: Seq<Seq<char>> = Seq::empty();
    let mut i: usize = 0;
    assert(lv.skip(0) =~= lv);
    assert(texts(chunks@) =~= joined(groups));
    while i < lines.len()
        invariant
            0 <= i <= lines@.len(),
            lv == texts(lines@),
            open_lines == cur.len(),
            open_lines <= i,
            current@ == join(cur),
            cur.len() > 0 ==> byte_len(current@) < max_bytes,
            texts(chunks@) == joined(groups),
            line_groups(lv, max_bytes as nat) == pack(lv.skip(i as int), max_bytes as nat, groups, cur),
        decreases lines@.len() - i,
    {
        let line = &lines[i];
        let ghost rest = lv.skip(i as int);
        assert(rest.drop_first() =~= lv.skip(i + 1));
        assert(rest[0] == line@);
        proof {
            lemma_join_push(cur, line@);
        }
        let line_len = byte_length(line.as_str());
        let cur_len = byte_length(current.as_str());
        let flush_first = open_lines > 0 && line_len > max_bytes - cur_len - 1;
        if flush_first {
            chunks.push(current.clone());
            current = String::new();
            open_lines = 0;
            proof {
                assert(joined(groups.push(cur)) =~= joined(groups).push(join(cur)));
                groups = groups.push(cur);
                cur = Seq::empty();
            }
        }
        proof {
            lemma_join_push(cur, line@);
        }
        if open_lines > 0 {
            proof {
                reveal_strlit("\n");
            }
            current.append("\n");
        }
        current.append(line.as_str());
        open_lines = open_lines + 1;
        proof {
            cur = cur.push(line@);
        }
        assert(current@ =~= join(cur));
        let new_len = byte_length(current.as_str());
        if new_len >= max_bytes {
            chunks.push(current.clone());
            current = String::new();
            open_lines = 0;
            proof {
                assert(joined(groups.push(cur)) =~= joined(groups).push(join(cur)));
                groups = groups.push(cur);
                cur = Seq::empty();
            }
        }
        i += 1;
    }
    assert(lv.skip(i as int) =~= Seq::<Seq<char>>::empty());
    if open_lines > 0 {
        chunks.push(current);
        proof {
            assert(joined(groups.push(cur)) =~= joined(groups).push(join(cur)));
            groups = groups.push(cur);
        }
    }
    chunks
}

} // verus!
