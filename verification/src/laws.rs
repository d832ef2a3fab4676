use vstd::prelude::*;

use crate::catalog::found_syntax_name;
use crate::convert::md_events;
use crate::convert::rendered;
use crate::catalog::plain_syntax_name;
use crate::catalog::selected_syntax;
use crate::events::EvModel;
use crate::highlight::block_highlight;
use crate::highlight::pre_code;
use crate::intercept::initial_state;
use crate::intercept::intercept_model;
use crate::intercept::run;
use crate::intercept::st_of;
use crate::intercept::step;
use crate::intercept::BlockState;
use syntect::parsing::SyntaxSet;

verus! {

/// Whether a sequence holds no code-block boundary at all.
pub open spec fn no_code_events<T>(evs: Seq<EvModel<T>>) -> bool {
    forall|i: int|
        0 <= i < evs.len() ==> !(#[trigger] evs[i] is CodeStart) && !(evs[i] is CodeEnd)
}

/// The text of a code block as buffered: its text events concatenated in
/// order.
pub open spec fn concat_texts(texts: Seq<Seq<char>>) -> Seq<char>
    decreases texts.len(),
{
    if texts.len() == 0 {
        Seq::empty()
    } else {
        texts[0] + concat_texts(texts.drop_first())
    }
}

/// The text events of a code block's body, in order.
pub open spec fn text_events<T>(texts: Seq<Seq<char>>) -> Seq<EvModel<T>> {
    texts.map_values(|x: Seq<char>| EvModel::<T>::Text(x))
}

/// A run decomposes over concatenation: the second part starts in the state
/// the first part ends in, and the emitted events concatenate.
pub proof fn lemma_run_append<T>(
    ss: SyntaxSet,
    st: BlockState,
    a: Seq<EvModel<T>>,
    b: Seq<EvModel<T>>,
)
    ensures
        run(ss, st, a + b).0 == run(ss, run(ss, st, a).0, b).0,
        run(ss, st, a + b).1 == run(ss, st, a).1 + run(ss, run(ss, st, a).0, b).1,
    decreases a.len(),
{
    if a.len() == 0 {
        assert(a + b =~= b);
        assert(run(ss, st, a).0 == st);
        assert(run(ss, st, a).1 =~= Seq::<EvModel<T>>::empty());
        assert(run(ss, st, a).1 + run(ss, st, b).1 =~= run(ss, st, b).1);
    } else {
        let ab = a + b;
        let st1 = step(ss, st, a[0]).0;
        assert(ab.len() > 0);
        assert(ab[0] == a[0]);
        assert(ab.drop_first() =~= a.drop_first() + b);
        lemma_run_append(ss, st1, a.drop_first(), b);
        assert(run(ss, st, ab).1 == step(ss, st, a[0]).1 + run(ss, st1, a.drop_first() + b).1);
        assert((step(ss, st, a[0]).1 + run(ss, st1, a.drop_first()).1) + run(
            ss,
            run(ss, st1, a.drop_first()).0,
            b,
        ).1 =~= step(ss, st, a[0]).1 + (run(ss, st1, a.drop_first()).1 + run(
            ss,
            run(ss, st1, a.drop_first()).0,
            b,
        ).1));
    }
}

/// A run over one event is just that event's transition.
pub proof fn lemma_run_one<T>(ss: SyntaxSet, st: BlockState, ev: EvModel<T>)
    ensures
        run(ss, st, seq![ev]).0 == step(ss, st, ev).0,
        run(ss, st, seq![ev]).1 == step(ss, st, ev).1,
{
    let one = seq![ev];
    assert(one.drop_first() =~= Seq::<EvModel<T>>::empty());
    assert(run(ss, step(ss, st, ev).0, one.drop_first()).1 =~= Seq::<EvModel<T>>::empty());
    assert(step(ss, st, ev).1 + Seq::<EvModel<T>>::empty() =~= step(ss, st, ev).1);
}

/// Outside any block, events that are no code-block boundary pass through
/// one by one, and the state stays as it was.
pub proof fn lemma_run_no_code<T>(ss: SyntaxSet, st: BlockState, evs: Seq<EvModel<T>>)
    requires
        st.token.len() == 0,
        no_code_events(evs),
    ensures
        run(ss, st, evs).0 == st,
        run(ss, st, evs).1 == evs,
    decreases evs.len(),
{
    if evs.len() == 0 {
        assert(run(ss, st, evs).1 =~= evs);
    } else {
        assert(!(evs[0] is CodeStart) && !(evs[0] is CodeEnd));
        assert(step(ss, st, evs[0]).0 == st);
        assert(step(ss, st, evs[0]).1 =~= seq![evs[0]]);
        assert(no_code_events(evs.drop_first())) by {
            assert forall|i: int|
                0 <= i < evs.drop_first().len() implies !(#[trigger] evs.drop_first()[i]
                is CodeStart) && !(evs.drop_first()[i] is CodeEnd) by {
                assert(evs.drop_first()[i] == evs[i + 1]);
            }
        }
        lemma_run_no_code(ss, st, evs.drop_first());
        assert(seq![evs[0]] + evs.drop_first() =~= evs);
    }
}

/// A document with no fenced code block passes the interceptor unchanged,
/// elementwise.
pub proof fn lemma_no_code_blocks_identity<T>(ss: SyntaxSet, evs: Seq<EvModel<T>>)
    requires
        no_code_events(evs),
    ensures
        intercept_model(ss, evs) == evs,
{
    lemma_run_no_code(ss, initial_state(), evs);
}

/// While a block is active, its text events are buffered in order and
/// nothing is emitted for them.
pub proof fn lemma_run_texts<T>(ss: SyntaxSet, st: BlockState, texts: Seq<Seq<char>>)
    requires
        st.token.len() > 0,
    ensures
        run(ss, st, text_events::<T>(texts)).0 == st_of(st.token, st.buf + concat_texts(texts)),
        run(ss, st, text_events::<T>(texts)).1 == Seq::<EvModel<T>>::empty(),
    decreases texts.len(),
{
    let evs = text_events::<T>(texts);
    if texts.len() == 0 {
        assert(evs.len() == 0);
        assert(st.buf + concat_texts(texts) =~= st.buf);
        assert(st_of(st.token, st.buf + concat_texts(texts)) == st);
    } else {
        assert(evs[0] == EvModel::<T>::Text(texts[0]));
        let st1 = st_of(st.token, st.buf + texts[0]);
        assert(step(ss, st, evs[0]).0 == st1);
        assert(step(ss, st, evs[0]).1 =~= Seq::<EvModel<T>>::empty());
        assert(evs.drop_first() =~= text_events::<T>(texts.drop_first()));
        lemma_run_texts::<T>(ss, st1, texts.drop_first());
        assert((st.buf + texts[0]) + concat_texts(texts.drop_first()) =~= st.buf + concat_texts(
            texts,
        ));
        assert(Seq::<EvModel<T>>::empty() + run(ss, st1, evs.drop_first()).1 =~= run(
            ss,
            st1,
            evs.drop_first(),
        ).1);
    }
}

/// A fenced block with a declared language and non-empty text collapses
/// into exactly one literal-HTML event in its place: the highlighted text
/// in its `<pre><code>` shell.  The surrounding events survive unchanged,
/// in order, and none of the block's raw text events survives.
pub proof fn lemma_block_collapses<T>(
    ss: SyntaxSet,
    before: Seq<EvModel<T>>,
    token: Seq<char>,
    texts: Seq<Seq<char>>,
    after: Seq<EvModel<T>>,
)
    requires
        no_code_events(before),
        no_code_events(after),
        token.len() > 0,
        concat_texts(texts).len() > 0,
    ensures
        intercept_model(
            ss,
            before + seq![EvModel::CodeStart(token)] + text_events::<T>(texts)
                + seq![EvModel::CodeEnd] + after,
        ) == before + seq![
            EvModel::<T>::Html(pre_code(block_highlight(ss, token, concat_texts(texts)))),
        ] + after,
{
    let init = initial_state();
    let start = seq![EvModel::<T>::CodeStart(token)];
    let body = text_events::<T>(texts);
    let endv = seq![EvModel::<T>::CodeEnd];
    let open = st_of(token, Seq::empty());
    let full = st_of(token, concat_texts(texts));
    let html = seq![
        EvModel::<T>::Html(pre_code(block_highlight(ss, token, concat_texts(texts)))),
    ];

    lemma_run_no_code(ss, init, before);
    lemma_run_one(ss, init, start[0]);
    assert(run(ss, init, start).0 == open);
    assert(run(ss, init, start).1 =~= Seq::<EvModel<T>>::empty());
    lemma_run_texts::<T>(ss, open, texts);
    assert(Seq::empty() + concat_texts(texts) =~= concat_texts(texts));
    assert(run(ss, open, body).0 == full);
    lemma_run_one(ss, full, endv[0]);
    assert(run(ss, full, endv).0 == init);
    assert(run(ss, full, endv).1 == html);
    lemma_run_no_code(ss, init, after);

    let upto_start = before + start;
    lemma_run_append(ss, init, before, start);
    assert(run(ss, init, upto_start).0 == open);
    assert(run(ss, init, upto_start).1 =~= before);
    let upto_body = upto_start + body;
    lemma_run_append(ss, init, upto_start, body);
    assert(run(ss, init, upto_body).0 == full);
    assert(run(ss, init, upto_body).1 =~= before);
    let upto_end = upto_body + endv;
    lemma_run_append(ss, init, upto_body, endv);
    assert(run(ss, init, upto_end).0 == init);
    assert(run(ss, init, upto_end).1 =~= before + html);
    let whole = upto_end + after;
    lemma_run_append(ss, init, upto_end, after);
    assert(run(ss, init, whole).1 =~= (before + html) + after);
    assert((before + html) + after =~= before + html + after);
}

/// An empty fenced block vanishes: a start at once followed by the end
/// emits nothing, whatever the fence token says.
pub proof fn lemma_empty_block_vanishes<T>(
    ss: SyntaxSet,
    before: Seq<EvModel<T>>,
    token: Seq<char>,
    after: Seq<EvModel<T>>,
)
    requires
        no_code_events(before),
        no_code_events(after),
    ensures
        intercept_model(
            ss,
            before + seq![EvModel::CodeStart(token), EvModel::CodeEnd] + after,
        ) == before + after,
{
    let init = initial_state();
    let block = seq![EvModel::<T>::CodeStart(token), EvModel::<T>::CodeEnd];
    let open = st_of(token, Seq::empty());

    lemma_run_no_code(ss, init, before);
    lemma_run_one(ss, open, EvModel::<T>::CodeEnd);
    assert(block.drop_first() =~= seq![EvModel::<T>::CodeEnd]);
    assert(step(ss, init, block[0]).0 == open);
    assert(step(ss, init, block[0]).1 =~= Seq::<EvModel<T>>::empty());
    assert(run(ss, open, seq![EvModel::<T>::CodeEnd]).1 =~= Seq::<EvModel<T>>::empty());
    assert(run(ss, init, block).0 == init);
    assert(run(ss, init, block).1 =~= Seq::<EvModel<T>>::empty());
    lemma_run_no_code(ss, init, after);

    let upto_block = before + block;
    lemma_run_append(ss, init, before, block);
    assert(run(ss, init, upto_block).0 == init);
    assert(run(ss, init, upto_block).1 =~= before);
    let whole = upto_block + after;
    lemma_run_append(ss, init, upto_block, after);
    assert(run(ss, init, whole).1 =~= before + after);
}

proof fn lemma_run_no_longer<T>(ss: SyntaxSet, st: BlockState, evs: Seq<EvModel<T>>)
    ensures
        run(ss, st, evs).1.len() <= evs.len(),
    decreases evs.len(),
{
    if evs.len() > 0 {
        assert(step(ss, st, evs[0]).1.len() <= 1);
        lemma_run_no_longer(ss, step(ss, st, evs[0]).0, evs.drop_first());
    }
}

/// The rewritten sequence is never longer than the input: every event emits
/// at most one event.
pub proof fn lemma_output_no_longer<T>(ss: SyntaxSet, evs: Seq<EvModel<T>>)
    ensures
        intercept_model(ss, evs).len() <= evs.len(),
{
    lemma_run_no_longer(ss, initial_state(), evs);
}

proof fn lemma_run_no_boundaries<T>(ss: SyntaxSet, st: BlockState, evs: Seq<EvModel<T>>)
    ensures
        no_code_events(run(ss, st, evs).1),
    decreases evs.len(),
{
    if evs.len() == 0 {
        assert(no_code_events(run(ss, st, evs).1));
    } else {
        let out0 = step(ss, st, evs[0]).1;
        let rest = run(ss, step(ss, st, evs[0]).0, evs.drop_first()).1;
        assert forall|i: int|
            0 <= i < out0.len() implies !(#[trigger] out0[i] is CodeStart) && !(out0[i]
            is CodeEnd) by {
            match evs[0] {
                EvModel::CodeStart(t) => {}
                EvModel::CodeEnd => {}
                EvModel::Text(x) => {}
                _ => {}
            }
        }
        lemma_run_no_boundaries(ss, step(ss, st, evs[0]).0, evs.drop_first());
        assert forall|i: int|
            0 <= i < (out0 + rest).len() implies !(#[trigger] (out0 + rest)[i] is CodeStart) && !(
        (out0 + rest)[i] is CodeEnd) by {
            if i < out0.len() {
                assert((out0 + rest)[i] == out0[i]);
            } else {
                assert((out0 + rest)[i] == rest[i - out0.len()]);
            }
        }
    }
}

/// No code-block boundary survives the pass: in the rewritten sequence
/// every fenced block has collapsed into literal HTML or vanished.
pub proof fn lemma_no_boundaries_survive<T>(ss: SyntaxSet, evs: Seq<EvModel<T>>)
    ensures
        no_code_events(intercept_model(ss, evs)),
{
    lemma_run_no_boundaries(ss, initial_state(), evs);
}

/// Round trip: a document whose parsed events hold no code block converts
/// to exactly the HTML of the plain render — the interception pass changes
/// nothing, so serializing the rewritten events equals serializing the
/// parsed events as they came.
pub proof fn lemma_round_trip_plain(ss: SyntaxSet, input: Seq<char>)
    requires
        no_code_events(md_events(input)),
    ensures
        rendered(intercept_model(ss, md_events(input))) == rendered(md_events(input)),
{
    lemma_no_code_blocks_identity(ss, md_events(input));
}

/// A fence token that matches no grammar falls back to the plain-text
/// grammar; the highlighting path never fails on it.
pub proof fn lemma_unknown_token_falls_back(ss: SyntaxSet, token: Seq<char>)
    requires
        found_syntax_name(ss, token) is None,
    ensures
        selected_syntax(ss, token) == plain_syntax_name(ss),
{
}

} // verus!
