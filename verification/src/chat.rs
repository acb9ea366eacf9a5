//! Merging of streamed answers, and chat sessions that keep a history.
use vstd::prelude::*;
use crate::content::{
    append_parts, candidates_view, part_text, contents_view, extend_sources, parts_text,
    parts_view, sources_view, Candidate, CandidateV, CitationMetadata, Content,
    ContentV, Data, DataV, GenerateContentResponse, IntoContents, Part,
};
use crate::error::{Error, ServiceError};
use crate::genai::{GenerativeModel, ModelV};
use crate::text::push_str;

verus! {

/// Whether a part holds text.
pub open spec fn is_text(p: Option<DataV>) -> bool {
    p matches Some(DataV::Text(_))
}

/// `acc` with the buffered text added as one text part, unless it is empty.
pub open spec fn flush_text(acc: Seq<Option<DataV>>, buf: Seq<char>) -> Seq<Option<DataV>> {
    if buf.len() > 0 {
        acc.push(Some(DataV::Text(buf)))
    } else {
        acc
    }
}

/// One step of merging: text is added to the buffer; any other part first
/// flushes the buffer and is then kept as it is.
pub open spec fn merge_step(st: (Seq<Option<DataV>>, Seq<char>), p: Option<DataV>) -> (Seq<Option<DataV>>, Seq<char>) {
    match p {
        Some(DataV::Text(t)) => (st.0, st.1 + t),
        _ => (flush_text(st.0, st.1).push(p), seq![]),
    }
}

/// The merge state after reading `ps` left to right.
pub open spec fn merge_fold(ps: Seq<Option<DataV>>) -> (Seq<Option<DataV>>, Seq<char>)
    decreases ps.len(),
{
    if ps.len() == 0 {
        (seq![], seq![])
    } else {
        merge_step(merge_fold(ps.drop_last()), ps.last())
    }
}

/// The parts with each run of adjacent text parts joined into one text part
/// (runs of empty text vanish), other parts kept in order.
pub open spec fn merged_parts(ps: Seq<Option<DataV>>) -> Seq<Option<DataV>> {
    flush_text(merge_fold(ps).0, merge_fold(ps).1)
}

/// Combines parts while merging adjacent text blocks: the parts of
/// `existing` followed by those of `update`, each run of adjacent text parts
/// joined into one.
pub fn merge_parts(existing: Vec<Part>, update: Vec<Part>) -> (r: Vec<Part>)
    ensures
        parts_view(r@) == merged_parts(parts_view(existing@) + parts_view(update@)),
{
    let mut all = existing;
    append_parts(&mut all, update);
    let ghost ps = parts_view(all@);
    let ghost items = all@;
    let mut buffer = String::new();
    let mut merged: Vec<Part> = Vec::new();
    for part in it: all
        invariant
            it.seq() == items,
            ps == parts_view(items),
            (parts_view(merged@), buffer@) == merge_fold(ps.take(it.index() as int)),
    {
        let ghost k = it.index();
        let ghost pv = part@;
        assert(items[k as int] == part);
        assert(ps.take(k + 1).drop_last() =~= ps.take(k as int));
        assert(ps.take(k + 1).last() == pv);
        let is_text = match &part.data {
            Some(Data::Text(_)) => true,
            _ => false,
        };
        if is_text {
            match &part.data {
                Some(Data::Text(text)) => push_str(&mut buffer, text.as_str()),
                _ => {},
            }
        } else {
            if !buffer.as_str().is_empty() {
                let ghost before = parts_view(merged@);
                let t = Part::text(buffer.as_str());
                merged.push(t);
                assert(parts_view(merged@) =~= before.push(Some(DataV::Text(buffer@))));
                buffer = String::new();
            }
            let ghost before = parts_view(merged@);
            merged.push(part);
            assert(parts_view(merged@) =~= before.push(pv));
        }
        proof {
            if buffer@.len() == 0 && !is_text {
                assert(buffer@ =~= Seq::<char>::empty());
            }
        }
    }
    assert(ps.take(items.len() as int) =~= ps);
    if !buffer.as_str().is_empty() {
        let ghost before = parts_view(merged@);
        let ghost b = buffer@;
        merged.push(Part { data: Some(Data::Text(buffer)) });
        assert(parts_view(merged@) =~= before.push(Some(DataV::Text(b))));
    }
    merged
}

/// A content with the parts of `update` merged after its own; the role of
/// `existing` is kept.
pub open spec fn merged_content(existing: ContentV, update: ContentV) -> ContentV {
    ContentV { role: existing.role, parts: merged_parts(existing.parts + update.parts) }
}

/// Merges content parts while combining consecutive text elements.
pub fn merge_content(existing: Content, update: Content) -> (r: Content)
    ensures
        r@ == merged_content(existing@, update@),
{
    let Content { parts, role } = existing;
    Content { parts: merge_parts(parts, update.parts), role }
}

/// The citation sources of both, `existing` first.
pub fn merge_citations(existing: CitationMetadata, update: &CitationMetadata) -> (r: CitationMetadata)
    ensures
        sources_view(r.citation_sources@)
            == sources_view(existing.citation_sources@) + sources_view(update.citation_sources@),
{
    let mut existing = existing;
    extend_sources(&mut existing.citation_sources, &update.citation_sources);
    existing
}

/// A candidate updated by a later chunk of the same candidate: contents are
/// merged (or taken from the chunk when the candidate had none), the finish
/// reason and safety ratings are the chunk's, citations are appended; index,
/// token count and grounding attributions stay.
pub open spec fn merged_candidate(t: CandidateV, s: CandidateV) -> CandidateV {
    CandidateV {
        index: t.index,
        content: match s.content {
            Some(sc) => match t.content {
                Some(tc) => Some(merged_content(tc, sc)),
                None => Some(sc),
            },
            None => t.content,
        },
        finish_reason: s.finish_reason,
        safety_ratings: s.safety_ratings,
        citations: match s.citations {
            Some(sc) => match t.citations {
                Some(tc) => Some(tc + sc),
                None => Some(sc),
            },
            None => t.citations,
        },
        token_count: t.token_count,
        grounding: t.grounding,
    }
}

/// Merges candidate content and metadata.
pub fn merge_candidate_data(target: &mut Candidate, source: &Candidate)
    ensures
        final(target)@ == merged_candidate(old(target)@, source@),
        final(target)@.safety_ratings == source@.safety_ratings,
        final(target)@.finish_reason == source@.finish_reason,
        final(target)@.index == old(target)@.index,
        final(target)@.token_count == old(target)@.token_count,
        final(target)@.grounding == old(target)@.grounding,
        source@.content is None ==> final(target)@.content == old(target)@.content,
        source@.citations is None ==> final(target)@.citations == old(target)@.citations,
{
    match &source.content {
        Some(source_content) => {
            let existing = target.content.take();
            target.content = match existing {
                Some(existing) => Some(merge_content(existing, source_content.clone())),
                None => Some(source_content.clone()),
            };
        },
        None => {},
    }
    target.finish_reason = source.finish_reason;
    target.safety_ratings = crate::content::clone_ratings(&source.safety_ratings);
    match &source.citation_metadata {
        Some(source_citations) => {
            let existing = target.citation_metadata.take();
            target.citation_metadata = match existing {
                Some(existing) => Some(merge_citations(existing, source_citations)),
                None => Some(source_citations.clone()),
            };
        },
        None => {},
    }
}

/// The position of the last candidate with index `k`, if any.
pub open spec fn last_with_index(cs: Seq<CandidateV>, k: i32) -> Option<int>
    decreases cs.len(),
{
    if cs.len() == 0 {
        None
    } else if cs.last().index == Some(k) {
        Some(cs.len() - 1)
    } else {
        last_with_index(cs.drop_last(), k)
    }
}

/// A merged candidate after a chunk: updated by the chunk's last candidate
/// with the same index, if there is one; candidates without an index stay.
pub open spec fn candidate_after_chunk(c: CandidateV, chunk: Seq<CandidateV>) -> CandidateV {
    match c.index {
        Some(k) => match last_with_index(chunk, k) {
            Some(j) => merged_candidate(c, chunk[j]),
            None => c,
        },
        None => c,
    }
}

/// The candidates after a chunk: the chunk's own when there were none yet,
/// otherwise each one updated by its counterpart in the chunk.
pub open spec fn candidates_after_chunk(merged: Seq<CandidateV>, chunk: Seq<CandidateV>) -> Seq<CandidateV> {
    if merged.len() == 0 {
        chunk
    } else {
        merged.map_values(|c: CandidateV| candidate_after_chunk(c, chunk))
    }
}

/// The last candidate with index `k` is in range and has that index.
pub proof fn lemma_last_with_index(cs: Seq<CandidateV>, k: i32)
    ensures
        last_with_index(cs, k) matches Some(j) ==> 0 <= j < cs.len() && cs[j].index == Some(k),
    decreases cs.len(),
{
    if cs.len() > 0 && cs.last().index != Some(k) {
        lemma_last_with_index(cs.drop_last(), k);
    }
}

/// No candidate after the last one with index `k` has that index, and
/// none has it when there is no last one.
proof fn lemma_last_with_index_is_last(cs: Seq<CandidateV>, k: i32)
    ensures
        last_with_index(cs, k) is None ==> forall|j: int| 0 <= j < cs.len() ==> (#[trigger] cs[j]).index != Some(k),
        last_with_index(cs, k) matches Some(j) ==> forall|i: int| j < i < cs.len() ==> (#[trigger] cs[i]).index != Some(k),
    decreases cs.len(),
{
    if cs.len() > 0 && cs.last().index != Some(k) {
        let d = cs.drop_last();
        lemma_last_with_index_is_last(d, k);
        lemma_last_with_index(d, k);
        assert(last_with_index(cs, k) == last_with_index(d, k));
        if last_with_index(d, k) is None {
            assert forall|j: int| 0 <= j < cs.len() implies (#[trigger] cs[j]).index != Some(k) by {
                if j < cs.len() - 1 {
                    assert(cs[j] == d[j]);
                }
            }
        } else {
            let m = last_with_index(d, k).unwrap();
            assert forall|i: int| m < i < cs.len() implies (#[trigger] cs[i]).index != Some(k) by {
                if i < cs.len() - 1 {
                    assert(cs[i] == d[i]);
                }
            }
        }
    }
}

/// Merging one chunk's candidate into a candidate: the chunk's safety
/// ratings and finish reason replace the candidate's, whatever it held;
/// its index, token count and grounding attributions stay; its content and
/// citations stay when the chunk has none, and are the chunk's when the
/// candidate had none.
pub proof fn merging_takes_the_chunks_ratings(t: CandidateV, s: CandidateV)
    ensures
        merged_candidate(t, s).safety_ratings == s.safety_ratings,
        merged_candidate(t, s).finish_reason == s.finish_reason,
        merged_candidate(t, s).index == t.index,
        merged_candidate(t, s).token_count == t.token_count,
        merged_candidate(t, s).grounding == t.grounding,
        s.content is None ==> merged_candidate(t, s).content == t.content,
        t.content is None ==> merged_candidate(t, s).content == s.content,
        s.citations is None ==> merged_candidate(t, s).citations == t.citations,
        t.citations is None ==> merged_candidate(t, s).citations == s.citations,
        (t.citations is Some && s.citations is Some)
            ==> merged_candidate(t, s).citations == Some(t.citations.unwrap() + s.citations.unwrap()),
{
}

/// Merging a chunk into the candidates merged so far: with none yet, the
/// chunk's candidates are taken; otherwise there are as many as before, in
/// the same order, each keeping its index. A candidate whose index no
/// candidate of the chunk has is unchanged; one whose index the chunk has
/// takes the safety ratings and finish reason of the last chunk candidate
/// with that index.
pub proof fn merged_candidates_take_chunk_ratings(merged: Seq<CandidateV>, chunk: Seq<CandidateV>)
    ensures
        merged.len() == 0 ==> candidates_after_chunk(merged, chunk) == chunk,
        merged.len() > 0 ==> candidates_after_chunk(merged, chunk).len() == merged.len(),
        merged.len() > 0 ==> forall|i: int| 0 <= i < merged.len()
            ==> (#[trigger] candidates_after_chunk(merged, chunk)[i]).index == merged[i].index,
        merged.len() > 0 ==> forall|i: int| 0 <= i < merged.len()
            && (merged[i].index is None || forall|j: int| 0 <= j < chunk.len() ==> (#[trigger] chunk[j]).index != merged[i].index)
            ==> #[trigger] candidates_after_chunk(merged, chunk)[i] == merged[i],
        merged.len() > 0 ==> forall|i: int, j: int| 0 <= i < merged.len() && 0 <= j < chunk.len()
            && merged[i].index is Some && (#[trigger] chunk[j]).index == merged[i].index
            && (forall|l: int| j < l < chunk.len() ==> (#[trigger] chunk[l]).index != merged[i].index)
            ==> (#[trigger] candidates_after_chunk(merged, chunk)[i]).safety_ratings == chunk[j].safety_ratings
                && candidates_after_chunk(merged, chunk)[i].finish_reason == chunk[j].finish_reason,
{
    if merged.len() > 0 {
        let out = candidates_after_chunk(merged, chunk);
        assert forall|i: int| 0 <= i < merged.len() implies (#[trigger] out[i]).index == merged[i].index by {
            let k = merged[i].index;
            if let Some(k) = k {
                lemma_last_with_index(chunk, k);
            }
        }
        assert forall|i: int| 0 <= i < merged.len()
            && (merged[i].index is None || forall|j: int| 0 <= j < chunk.len() ==> (#[trigger] chunk[j]).index != merged[i].index)
            implies #[trigger] out[i] == merged[i] by {
            if let Some(k) = merged[i].index {
                lemma_last_with_index(chunk, k);
                if let Some(j) = last_with_index(chunk, k) {
                    assert(chunk[j].index != merged[i].index);
                }
            }
        }
        assert forall|i: int, j: int| 0 <= i < merged.len() && 0 <= j < chunk.len()
            && merged[i].index is Some && (#[trigger] chunk[j]).index == merged[i].index
            && (forall|l: int| j < l < chunk.len() ==> (#[trigger] chunk[l]).index != merged[i].index)
            implies (#[trigger] out[i]).safety_ratings == chunk[j].safety_ratings
                && out[i].finish_reason == chunk[j].finish_reason by {
            let k = merged[i].index.unwrap();
            lemma_last_with_index(chunk, k);
            lemma_last_with_index_is_last(chunk, k);
            match last_with_index(chunk, k) {
                Some(m) => {
                    if m < j {
                        assert(chunk[j].index != Some(k));
                    } else if m > j {
                        assert(chunk[m].index != merged[i].index);
                    }
                },
                None => {
                    assert(chunk[j].index != Some(k));
                },
            }
        }
    }
}

/// Finds the last candidate with index `k`.
fn find_last_with_index(cs: &[Candidate], k: i32) -> (r: Option<usize>)
    ensures
        match last_with_index(candidates_view(cs@), k) {
            Some(j) => r == Some(j as usize),
            None => r is None,
        },
{
    let ghost v = candidates_view(cs@);
    let mut i: usize = cs.len();
    assert(v.take(i as int) =~= v);
    while i > 0
        invariant
            i <= cs@.len(),
            v == candidates_view(cs@),
            last_with_index(v, k) == last_with_index(v.take(i as int), k),
        decreases i,
    {
        assert(v.take(i as int).drop_last() =~= v.take(i - 1));
        assert(v.take(i as int).last() == cs@[i - 1]@);
        if cs[i - 1].index == Some(k) {
            return Some(i - 1);
        }
        i = i - 1;
    }
    None
}

/// Merges the candidates of a new chunk into the candidates merged so far.
pub fn merge_candidates(merged: &mut Vec<Candidate>, new_candidates: &[Candidate])
    ensures
        candidates_view(final(merged)@)
            == candidates_after_chunk(candidates_view(old(merged)@), candidates_view(new_candidates@)),
{
    let ghost chunk = candidates_view(new_candidates@);
    if merged.len() == 0 {
        let mut i: usize = 0;
        while i < new_candidates.len()
            invariant
                i <= new_candidates@.len(),
                chunk == candidates_view(new_candidates@),
                candidates_view(merged@) == chunk.take(i as int),
            decreases new_candidates@.len() - i,
        {
            let c = new_candidates[i].clone();
            let ghost before = candidates_view(merged@);
            merged.push(c);
            assert(candidates_view(merged@) =~= before.push(c@));
            assert(chunk.take(i + 1) =~= chunk.take(i as int).push(chunk[i as int]));
            i = i + 1;
        }
        assert(chunk.take(i as int) =~= chunk);
        return;
    }
    let mut taken: Vec<Candidate> = Vec::new();
    taken.append(merged);
    let ghost olds = candidates_view(taken@);
    let ghost want = olds.map_values(|c: CandidateV| candidate_after_chunk(c, chunk));
    for candidate in it: taken
        invariant
            it.seq() == old(merged)@,
            olds == candidates_view(old(merged)@),
            chunk == candidates_view(new_candidates@),
            want == olds.map_values(|c: CandidateV| candidate_after_chunk(c, chunk)),
            candidates_view(merged@) == want.take(it.index() as int),
    {
        let ghost k = it.index();
        assert(k < olds.len());
        let mut candidate = candidate;
        assert(candidate@ == olds[k as int]);
        match candidate.index {
            Some(idx) => {
                proof {
                    lemma_last_with_index(chunk, idx);
                }
                match find_last_with_index(new_candidates, idx) {
                    Some(j) => merge_candidate_data(&mut candidate, &new_candidates[j]),
                    None => {},
                }
            },
            None => {},
        }
        let ghost before = candidates_view(merged@);
        let ghost cv = candidate@;
        merged.push(candidate);
        assert(candidates_view(merged@) =~= before.push(cv));
        assert(want.take(k + 1) =~= want.take(k as int).push(want[k as int]));
    }
    assert(want.take(olds.len() as int) =~= want);
}


/// The parts that are not text, in order.
pub open spec fn non_text_parts(ps: Seq<Option<DataV>>) -> Seq<Option<DataV>>
    decreases ps.len(),
{
    if ps.len() == 0 {
        seq![]
    } else if is_text(ps.last()) {
        non_text_parts(ps.drop_last())
    } else {
        non_text_parts(ps.drop_last()).push(ps.last())
    }
}

/// No two adjacent parts are both text.
pub open spec fn no_adjacent_text(ps: Seq<Option<DataV>>) -> bool {
    forall|i: int| 0 <= i < ps.len() - 1 ==> !(is_text(#[trigger] ps[i]) && is_text(ps[i + 1]))
}

/// No text part is empty.
pub open spec fn no_empty_text(ps: Seq<Option<DataV>>) -> bool {
    forall|i: int| 0 <= i < ps.len() ==> (#[trigger] ps[i] matches Some(DataV::Text(t)) ==> t.len() > 0)
}

/// The merge state after reading `ps` from the state `st`.
pub open spec fn merge_fold_from(st: (Seq<Option<DataV>>, Seq<char>), ps: Seq<Option<DataV>>) -> (Seq<Option<DataV>>, Seq<char>)
    decreases ps.len(),
{
    if ps.len() == 0 {
        st
    } else {
        merge_step(merge_fold_from(st, ps.drop_last()), ps.last())
    }
}

proof fn lemma_fold_from_start(ps: Seq<Option<DataV>>)
    ensures
        merge_fold(ps) == merge_fold_from((seq![], seq![]), ps),
    decreases ps.len(),
{
    if ps.len() > 0 {
        lemma_fold_from_start(ps.drop_last());
    }
}

proof fn lemma_fold_from_append(st: (Seq<Option<DataV>>, Seq<char>), x: Seq<Option<DataV>>, y: Seq<Option<DataV>>)
    ensures
        merge_fold_from(st, x + y) == merge_fold_from(merge_fold_from(st, x), y),
    decreases y.len(),
{
    if y.len() == 0 {
        assert(x + y =~= x);
    } else {
        lemma_fold_from_append(st, x, y.drop_last());
        assert((x + y).drop_last() =~= x + y.drop_last());
        assert((x + y).last() == y.last());
    }
}

proof fn lemma_fold_invariants(ps: Seq<Option<DataV>>)
    ensures
        parts_text(merge_fold(ps).0) + merge_fold(ps).1 == parts_text(ps),
        non_text_parts(merge_fold(ps).0) == non_text_parts(ps),
        no_adjacent_text(merge_fold(ps).0),
        no_empty_text(merge_fold(ps).0),
        merge_fold(ps).0.len() > 0 ==> !is_text(merge_fold(ps).0.last()),
    decreases ps.len(),
{
    if ps.len() == 0 {
        assert(parts_text(Seq::<Option<DataV>>::empty()) + Seq::<char>::empty() =~= Seq::<char>::empty());
    } else {
        let prev = ps.drop_last();
        let p = ps.last();
        lemma_fold_invariants(prev);
        let (acc, buf) = merge_fold(prev);
        match p {
            Some(DataV::Text(t)) => {
                assert(parts_text(acc) + (buf + t) =~= (parts_text(acc) + buf) + t);
            },
            _ => {
                let fl = flush_text(acc, buf);
                let acc2 = fl.push(p);
                assert(acc2.drop_last() =~= fl);
                if buf.len() > 0 {
                    assert(fl.drop_last() =~= acc);
                    assert(parts_text(fl) == parts_text(acc) + buf);
                    assert(non_text_parts(fl) == non_text_parts(acc));
                    assert forall|i: int| 0 <= i < acc2.len() - 1 implies !(is_text(#[trigger] acc2[i]) && is_text(acc2[i + 1])) by {
                        if i < acc.len() - 1 {
                            assert(acc2[i] == acc[i] && acc2[i + 1] == acc[i + 1]);
                        } else if i == acc.len() - 1 {
                            assert(acc2[i] == acc.last());
                        } else {
                            assert(acc2[i + 1] == p);
                        }
                    }
                    assert forall|i: int| 0 <= i < acc2.len() implies (#[trigger] acc2[i] matches Some(DataV::Text(t)) ==> t.len() > 0) by {
                        if i < acc.len() {
                            assert(acc2[i] == acc[i]);
                        }
                    }
                } else {
                    assert forall|i: int| 0 <= i < acc2.len() - 1 implies !(is_text(#[trigger] acc2[i]) && is_text(acc2[i + 1])) by {
                        if i < acc.len() - 1 {
                            assert(acc2[i] == acc[i] && acc2[i + 1] == acc[i + 1]);
                        } else {
                            assert(acc2[i + 1] == p);
                        }
                    }
                    assert forall|i: int| 0 <= i < acc2.len() implies (#[trigger] acc2[i] matches Some(DataV::Text(t)) ==> t.len() > 0) by {
                        if i < acc.len() {
                            assert(acc2[i] == acc[i]);
                        }
                    }
                }
                assert(parts_text(acc2) == parts_text(fl) + part_text(p));
                assert(part_text(p) =~= Seq::<char>::empty());
                assert(parts_text(acc2) + Seq::<char>::empty() =~= parts_text(prev) + Seq::<char>::empty());
                assert(parts_text(prev) + Seq::<char>::empty() =~= parts_text(prev));
            },
        }
    }
}

/// Reading parts that are already merged, from the start, gives them back
/// with the trailing text (if any) in the buffer.
proof fn lemma_fold_normal(acc: Seq<Option<DataV>>)
    requires
        no_adjacent_text(acc),
        no_empty_text(acc),
    ensures
        merge_fold(acc) == (if acc.len() > 0 && is_text(acc.last()) {
            (acc.drop_last(), part_text(acc.last()))
        } else {
            (acc, Seq::<char>::empty())
        }),
    decreases acc.len(),
{
    if acc.len() > 0 {
        let prev = acc.drop_last();
        assert(no_adjacent_text(prev)) by {
            assert forall|i: int| 0 <= i < prev.len() - 1 implies !(is_text(#[trigger] prev[i]) && is_text(prev[i + 1])) by {
                assert(prev[i] == acc[i] && prev[i + 1] == acc[i + 1]);
            }
        }
        assert(no_empty_text(prev)) by {
            assert forall|i: int| 0 <= i < prev.len() implies (#[trigger] prev[i] matches Some(DataV::Text(t)) ==> t.len() > 0) by {
                assert(prev[i] == acc[i]);
            }
        }
        lemma_fold_normal(prev);
        let p = acc.last();
        assert(acc[acc.len() - 1] == p);
        if prev.len() > 0 {
            assert(prev.last() == acc[acc.len() - 2]);
        }
        match p {
            Some(DataV::Text(t)) => {
                if prev.len() > 0 {
                    assert(!is_text(prev.last()));
                }
                assert(Seq::<char>::empty() + t =~= t);
            },
            _ => {
                if prev.len() > 0 && is_text(prev.last()) {
                    let q = prev.last();
                    assert(part_text(q).len() > 0);
                    assert(prev.drop_last().push(q) =~= prev);
                    assert(flush_text(prev.drop_last(), part_text(q)) == prev);
                } else {
                    assert(flush_text(prev, Seq::<char>::empty()) == prev);
                }
                assert(prev.push(p) =~= acc);
            },
        }
    }
}

/// Merging parts keeps their text and the order of their other parts, and
/// leaves no two adjacent text parts and no empty text part.
pub proof fn merge_parts_laws(ps: Seq<Option<DataV>>)
    ensures
        parts_text(merged_parts(ps)) == parts_text(ps),
        non_text_parts(merged_parts(ps)) == non_text_parts(ps),
        no_adjacent_text(merged_parts(ps)),
        no_empty_text(merged_parts(ps)),
{
    lemma_fold_invariants(ps);
    let (acc, buf) = merge_fold(ps);
    if buf.len() > 0 {
        let m = acc.push(Some(DataV::Text(buf)));
        assert(m.drop_last() =~= acc);
        assert forall|i: int| 0 <= i < m.len() - 1 implies !(is_text(#[trigger] m[i]) && is_text(m[i + 1])) by {
            if i < acc.len() - 1 {
                assert(m[i] == acc[i] && m[i + 1] == acc[i + 1]);
            } else {
                assert(m[i] == acc.last());
            }
        }
        assert forall|i: int| 0 <= i < m.len() implies (#[trigger] m[i] matches Some(DataV::Text(t)) ==> t.len() > 0) by {
            if i < acc.len() {
                assert(m[i] == acc[i]);
            }
        }
    } else {
        assert(parts_text(acc) + buf =~= parts_text(acc));
    }
}

/// Merging a stream chunk by chunk gives what merging all of it at once
/// gives: merging `b` into already merged parts of `a` equals merging `a`
/// and `b` together.
pub proof fn merge_parts_chunked(a: Seq<Option<DataV>>, b: Seq<Option<DataV>>)
    ensures
        merged_parts(merged_parts(a) + b) == merged_parts(a + b),
{
    lemma_fold_invariants(a);
    merge_parts_laws(a);
    let (acc, buf) = merge_fold(a);
    let m = merged_parts(a);
    lemma_fold_normal(m);
    if buf.len() > 0 {
        assert(m.drop_last() =~= acc);
        assert(m.last() == Some(DataV::Text(buf)));
    } else {
        assert(m == acc);
    }
    assert(merge_fold(m) == merge_fold(a));
    lemma_fold_from_start(m + b);
    lemma_fold_from_start(a + b);
    lemma_fold_from_start(m);
    lemma_fold_from_start(a);
    lemma_fold_from_append((seq![], seq![]), m, b);
    lemma_fold_from_append((seq![], seq![]), a, b);
}

/// Merged parts are merged already: merging them again changes nothing.
pub proof fn merge_parts_idempotent(ps: Seq<Option<DataV>>)
    ensures
        merged_parts(merged_parts(ps)) == merged_parts(ps),
{
    merge_parts_chunked(ps, seq![]);
    assert(merged_parts(ps) + Seq::<Option<DataV>>::empty() =~= merged_parts(ps));
    assert(ps + Seq::<Option<DataV>>::empty() =~= ps);
}


/// What a chat keeps of an answer: the content of its first candidate, with
/// the role "model"; nothing when there is no candidate or the first one has
/// no content.
pub open spec fn best_content(cs: Seq<CandidateV>) -> Option<ContentV> {
    if cs.len() == 0 {
        None
    } else {
        match cs[0].content {
            Some(c) => Some(ContentV { role: "model"@, parts: c.parts }),
            None => None,
        }
    }
}

/// The history after an answer with candidates `cs`.
pub open spec fn history_after(h: Seq<ContentV>, cs: Seq<CandidateV>) -> Seq<ContentV> {
    match best_content(cs) {
        Some(c) => h.push(c),
        None => h,
    }
}

/// Interactive chat session maintaining conversation history.
pub struct Session<'m> {
    model: &'m GenerativeModel,
    /// The conversation so far, oldest first.
    pub history: Vec<Content>,
}

impl GenerativeModel {
    /// Starts a new chat session with empty history.
    pub fn start_chat(&self) -> (r: Session<'_>)
        ensures
            r.model_view() == self@,
            r.history_view().len() == 0,
    {
        Session { model: self, history: Vec::new() }
    }
}

impl<'m> Session<'m> {
    /// The conversation so far.
    pub closed spec fn history_view(&self) -> Seq<ContentV> {
        contents_view(self.history@)
    }

    /// The model this session talks to.
    pub closed spec fn model_view(&self) -> ModelV {
        self.model@
    }

    /// The model this session talks to.
    pub fn model(&self) -> (r: &'m GenerativeModel)
        ensures
            r@ == self.model_view(),
    {
        self.model
    }

    /// Adds a message to the history and returns the whole history, which is
    /// what is sent to the model.
    pub fn prepare_message<T: IntoContents>(&mut self, contents: T) -> (r: Vec<Content>)
        ensures
            final(self).history_view() == old(self).history_view()
                + contents.contents_spec(),
            contents_view(r@) == final(self).history_view(),
            final(self).model_view() == old(self).model_view(),
    {
        let more = contents.into_contents();
        let ghost before = contents_view(self.history@);
        let ghost added = contents_view(more@);
        let mut more = more;
        self.history.append(&mut more);
        assert(contents_view(self.history@) =~= before + added);
        crate::content::clone_contents(&self.history)
    }

    /// Adds the most appropriate candidate to chat history: the content of
    /// the first candidate, as said by the model. Returns `None`, and leaves
    /// the history as it was, when there is no such content.
    pub fn add_best_candidate_to_history(&mut self, candidates: &[Candidate]) -> (r: Option<()>)
        ensures
            final(self).history_view()
                == history_after(old(self).history_view(), candidates_view(candidates@)),
            r is Some <==> best_content(candidates_view(candidates@)) is Some,
            final(self).model_view() == old(self).model_view(),
    {
        if candidates.len() == 0 {
            return None;
        }
        assert(candidates_view(candidates@)[0] == candidates@[0]@);
        match &candidates[0].content {
            Some(content) => {
                let mut model_content = content.clone();
                model_content.role = "model".to_owned();
                let ghost before = contents_view(self.history@);
                let ghost cv = model_content@;
                self.history.push(model_content);
                assert(contents_view(self.history@) =~= before.push(cv));
                Some(())
            },
            None => None,
        }
    }

    /// Takes the model's answer to the message just prepared: its best
    /// candidate is added to the history and the answer is handed back.
    ///
    /// # Errors
    /// Returns [`Error::Service`] if no valid candidates in response.
    pub fn record_response(&mut self, response: GenerateContentResponse) -> (r: Result<GenerateContentResponse, Error>)
        ensures
            final(self).history_view()
                == history_after(old(self).history_view(), candidates_view(response.candidates@)),
            final(self).model_view() == old(self).model_view(),
            match r {
                Ok(resp) => resp == response && best_content(candidates_view(response.candidates@)) is Some,
                Err(e) => {
                    &&& best_content(candidates_view(response.candidates@)) is None
                    &&& e matches Error::Service(ServiceError::InvalidResponse(m))
                    &&& m@ == "No valid candidates"@
                },
            },
    {
        match self.add_best_candidate_to_history(response.candidates.as_slice()) {
            Some(()) => Ok(response),
            None => Err(Error::Service(ServiceError::InvalidResponse("No valid candidates".to_owned()))),
        }
    }
}

/// Streaming response handler that maintains session continuity: it merges
/// the chunks as they come, and adds the merged answer to the history once
/// the stream has ended.
pub struct ResponseStream {
    merged_candidates: Vec<Candidate>,
    is_complete: bool,
}

impl ResponseStream {
    /// The candidates merged so far.
    pub closed spec fn merged_view(&self) -> Seq<CandidateV> {
        candidates_view(self.merged_candidates@)
    }

    /// Whether the stream has ended.
    pub closed spec fn complete_view(&self) -> bool {
        self.is_complete
    }

    /// A stream that has seen no chunk yet.
    pub fn new() -> (r: ResponseStream)
        ensures
            r.merged_view().len() == 0,
            !r.complete_view(),
    {
        ResponseStream { merged_candidates: Vec::new(), is_complete: false }
    }

    /// Whether the stream has ended; no chunk is to be asked for then.
    pub fn is_complete(&self) -> (r: bool)
        ensures
            r == self.complete_view(),
    {
        self.is_complete
    }

    /// The candidates merged so far.
    pub fn merged_candidates(&self) -> (r: &Vec<Candidate>)
        ensures
            candidates_view(r@) == self.merged_view(),
    {
        &self.merged_candidates
    }

    /// Retrieves the next chunk of the streaming response, given what the
    /// model sent next (`None` once its stream has ended). A chunk is merged
    /// and passed on; the end adds the merged answer to the session's history
    /// and completes the stream, after which nothing is passed on.
    pub fn next(&mut self, session: &mut Session, chunk: Option<GenerateContentResponse>) -> (r: Option<GenerateContentResponse>)
        ensures
            (StreamV {
                merged: final(self).merged_view(),
                complete: final(self).complete_view(),
                history: final(session).history_view(),
            }) == stream_step(
                (StreamV {
                    merged: old(self).merged_view(),
                    complete: old(self).complete_view(),
                    history: old(session).history_view(),
                }),
                chunk_candidates(chunk),
            ),
            r == (if old(self).complete_view() { None } else { chunk }),
            final(session).model_view() == old(session).model_view(),
            old(self).complete_view() ==> {
                &&& r is None
                &&& final(self).complete_view()
                &&& final(self).merged_view() == old(self).merged_view()
                &&& final(session).history_view() == old(session).history_view()
            },
            !old(self).complete_view() ==> match chunk {
                Some(resp) => {
                    &&& r == Some(resp)
                    &&& !final(self).complete_view()
                    &&& final(self).merged_view()
                        == candidates_after_chunk(old(self).merged_view(), candidates_view(resp.candidates@))
                    &&& final(session).history_view() == old(session).history_view()
                },
                None => {
                    &&& r is None
                    &&& final(self).complete_view()
                    &&& final(self).merged_view() == old(self).merged_view()
                    &&& final(session).history_view()
                        == history_after(old(session).history_view(), old(self).merged_view())
                },
            },
    {
        if self.is_complete {
            return None;
        }
        match chunk {
            Some(response) => {
                merge_candidates(&mut self.merged_candidates, response.candidates.as_slice());
                Some(response)
            },
            None => {
                let _ = session.add_best_candidate_to_history(self.merged_candidates.as_slice());
                self.is_complete = true;
                None
            },
        }
    }
}

/// A response stream and its session, by their views: the candidates
/// merged so far, whether the stream has ended, and the session's history.
pub struct StreamV {
    pub merged: Seq<CandidateV>,
    pub complete: bool,
    pub history: Seq<ContentV>,
}

/// The candidates of what the model sent next, if anything.
pub open spec fn chunk_candidates(chunk: Option<GenerateContentResponse>) -> Option<Seq<CandidateV>> {
    match chunk {
        Some(resp) => Some(candidates_view(resp.candidates@)),
        None => None,
    }
}

/// One step of a stream ([`ResponseStream::next`]): a chunk is merged; the
/// end adds the merged answer to the history and completes the stream; a
/// completed stream stays as it is.
pub open spec fn stream_step(st: StreamV, chunk: Option<Seq<CandidateV>>) -> StreamV {
    if st.complete {
        st
    } else {
        match chunk {
            Some(cs) => StreamV { merged: candidates_after_chunk(st.merged, cs), ..st },
            None => StreamV { complete: true, history: history_after(st.history, st.merged), ..st },
        }
    }
}

/// What a step passes on: the chunk, unless the stream has ended.
pub open spec fn stream_passes(st: StreamV, chunk: Option<Seq<CandidateV>>) -> Option<Seq<CandidateV>> {
    if st.complete {
        None
    } else {
        chunk
    }
}

/// A stream just started on a session whose history is `h`.
pub open spec fn stream_start(h: Seq<ContentV>) -> StreamV {
    StreamV { merged: Seq::empty(), complete: false, history: h }
}

/// What step `k` (counting from 0) of a stream is given when the model
/// sends `chunks` and then ends: chunk `k`, or the end.
pub open spec fn stream_input(chunks: Seq<Seq<CandidateV>>, k: nat) -> Option<Seq<CandidateV>> {
    if k < chunks.len() {
        Some(chunks[k as int])
    } else {
        None
    }
}

/// The stream after `k` steps from `st`, the model sending `chunks` and then
/// ending.
pub open spec fn stream_after(st: StreamV, chunks: Seq<Seq<CandidateV>>, k: nat) -> StreamV
    decreases k,
{
    if k == 0 {
        st
    } else {
        stream_step(stream_after(st, chunks, (k - 1) as nat), stream_input(chunks, (k - 1) as nat))
    }
}

/// The candidates that merging `chunks` in turn gives.
pub open spec fn merged_chunks(chunks: Seq<Seq<CandidateV>>) -> Seq<CandidateV>
    decreases chunks.len(),
{
    if chunks.len() == 0 {
        Seq::empty()
    } else {
        candidates_after_chunk(merged_chunks(chunks.drop_last()), chunks.last())
    }
}

/// A stream started on a session with history `h`, the model sending
/// `chunks` and then ending: step `k` passes chunk `k` on while chunks come,
/// the history staying `h`; the end passes nothing on and adds to the
/// history the first merged candidate's content, said by the model (if it
/// has one); every later step passes nothing on and changes nothing.
pub proof fn stream_passes_chunks_then_records(h: Seq<ContentV>, chunks: Seq<Seq<CandidateV>>, k: nat)
    ensures
        stream_passes(stream_after(stream_start(h), chunks, k), stream_input(chunks, k))
            == stream_input(chunks, k),
        k <= chunks.len() ==> stream_after(stream_start(h), chunks, k)
            == (StreamV { merged: merged_chunks(chunks.take(k as int)), complete: false, history: h }),
        k > chunks.len() ==> stream_after(stream_start(h), chunks, k)
            == (StreamV { merged: merged_chunks(chunks), complete: true, history: history_after(h, merged_chunks(chunks)) }),
    decreases k,
{
    if k == 0 {
        assert(chunks.take(0) =~= Seq::<Seq<CandidateV>>::empty());
    } else {
        let k1 = (k - 1) as nat;
        stream_passes_chunks_then_records(h, chunks, k1);
        if k <= chunks.len() {
            assert(chunks.take(k as int).drop_last() =~= chunks.take(k1 as int));
            assert(chunks.take(k as int).last() == chunks[k1 as int]);
        } else if k1 == chunks.len() {
            assert(chunks.take(k1 as int) =~= chunks);
        }
    }
}

/// A chat turn adds to the history: after a message is prepared and the
/// answer recorded, the history is the old one, then the message's
/// contents, then the answer's best content if it has one; nothing earlier
/// is lost.
pub proof fn history_after_turn(h: Seq<ContentV>, message: Seq<ContentV>, cs: Seq<CandidateV>)
    ensures
        history_after(h + message, cs).take((h + message).len() as int) == h + message,
        history_after(h + message, cs).len() == h.len() + message.len()
            + (if best_content(cs) is Some { 1int } else { 0int }),
        best_content(cs) matches Some(c) ==> history_after(h + message, cs).last() == c,
{
    let hm = h + message;
    match best_content(cs) {
        Some(c) => {
            assert(hm.push(c).take(hm.len() as int) =~= hm);
        },
        None => {
            assert(hm.take(hm.len() as int) =~= hm);
        },
    }
}

} // verus!
