use vstd::prelude::*;

use crate::catalog::Catalog;
use crate::events::event_views;
use crate::events::EvModel;
use crate::events::MdEvent;
use crate::highlight::block_highlight;
use crate::highlight::highlight_block;
use crate::highlight::pre_code;
use crate::highlight::wrap_pre_code;
use syntect::parsing::SyntaxSet;

verus! {

/// The interceptor's transient state: the fence token of the open code
/// block and the text accumulated for it.  An empty token means no block is
/// active; the buffer is non-empty only while a block is active.
pub struct BlockState {
    pub token: Seq<char>,
    pub buf: Seq<char>,
}

pub open spec fn st_of(token: Seq<char>, buf: Seq<char>) -> BlockState {
    BlockState { token, buf }
}

/// Outside any code block, with nothing buffered.
pub open spec fn initial_state() -> BlockState {
    st_of(Seq::empty(), Seq::empty())
}

/// One transition of the interceptor: the state after an event, and the
/// events emitted for it.
///
/// A block start remembers the fence token and clears the buffer, emitting
/// nothing.  Text is buffered while a block is active and forwarded
/// otherwise.  A block end with an active language and a non-empty buffer
/// collapses the block into one literal-HTML event holding the highlighted
/// text in its `<pre><code>` shell; any other block end emits nothing.  In
/// either case the end clears the state.  Every other event passes through
/// unchanged.
///
/// A block is active exactly while the remembered token is non-empty.  A
/// fence that declares no language — and an indented block, which arrives
/// with an empty token — therefore never activates: its text is forwarded
/// bare and its boundary events are dropped, so no `<pre><code>` shell
/// survives for it.  That is the one deliberately chosen reading of the
/// no-language corner; it is what the tool has always done.
pub open spec fn step<T>(ss: SyntaxSet, st: BlockState, ev: EvModel<T>) -> (
    BlockState,
    Seq<EvModel<T>>,
) {
    match ev {
        EvModel::CodeStart(t) => (st_of(t, Seq::empty()), Seq::empty()),
        EvModel::CodeEnd => if st.token.len() > 0 && st.buf.len() > 0 {
            (
                initial_state(),
                seq![EvModel::Html(pre_code(block_highlight(ss, st.token, st.buf)))],
            )
        } else {
            (initial_state(), Seq::empty())
        },
        EvModel::Text(x) => if st.token.len() > 0 {
            (st_of(st.token, st.buf + x), Seq::empty())
        } else {
            (st, seq![EvModel::Text(x)])
        },
        _ => (st, seq![ev]),
    }
}

/// The interceptor run over a whole event sequence from a given state: the
/// final state and everything emitted, in order.
pub open spec fn run<T>(ss: SyntaxSet, st: BlockState, evs: Seq<EvModel<T>>) -> (
    BlockState,
    Seq<EvModel<T>>,
)
    decreases evs.len(),
{
    if evs.len() == 0 {
        (st, Seq::empty())
    } else {
        let first = step(ss, st, evs[0]);
        let rest = run(ss, first.0, evs.drop_first());
        (rest.0, first.1 + rest.1)
    }
}

/// The rewritten event sequence: what the interceptor emits for `evs`,
/// starting outside any block.
pub open spec fn intercept_model<T>(ss: SyntaxSet, evs: Seq<EvModel<T>>) -> Seq<EvModel<T>> {
    run(ss, initial_state(), evs).1
}

/// Rewrites an event sequence, collapsing every fenced code block with a
/// declared language and non-empty text into a single literal-HTML event
/// holding the highlighted text, and keeping all other events in their
/// original relative order.
pub fn intercept<T>(cat: &Catalog, events: Vec<MdEvent<T>>) -> (out: Vec<MdEvent<T>>)
    requires
        cat.wf(),
    ensures
        event_views(out@) == intercept_model(cat.syntaxes, event_views(events@)),
{
    let ghost ss = cat.syntaxes;
    let ghost orig = event_views(events@);
    let mut events = events;
    let mut out: Vec<MdEvent<T>> = Vec::new();
    let mut token = String::new();
    let mut buf = String::new();
    proof {
        assert(event_views(out@) =~= Seq::<EvModel<T>>::empty());
        assert(st_of(token@, buf@) == initial_state());
        assert(event_views(out@) + run(ss, st_of(token@, buf@), event_views(events@)).1
            =~= intercept_model(ss, orig));
    }
    while events.len() > 0
        invariant
            cat.wf(),
            ss == cat.syntaxes,
            intercept_model(ss, orig) == event_views(out@) + run(
                ss,
                st_of(token@, buf@),
                event_views(events@),
            ).1,
        decreases events.len(),
    {
        let ghost pre_events = events@;
        let ghost st0 = st_of(token@, buf@);
        let ghost old_out = out@;
        let ev = events.remove(0);
        let ghost evm = ev@;
        proof {
            let vs = event_views(pre_events);
            assert(vs.len() > 0);
            assert(vs[0] == evm);
            assert(events@ =~= pre_events.drop_first());
            assert(vs.drop_first() =~= event_views(events@));
            assert(run(ss, st0, vs).1 == step(ss, st0, evm).1 + run(
                ss,
                step(ss, st0, evm).0,
                event_views(events@),
            ).1);
        }
        let ghost st1 = step(ss, st0, evm).0;
        let ghost emitted = step(ss, st0, evm).1;
        match ev {
            MdEvent::CodeStart(t) => {
                token = t;
                buf = String::new();
                proof {
                    assert(st_of(token@, buf@) == st1);
                    assert(event_views(out@) =~= event_views(old_out) + emitted);
                }
            },
            MdEvent::Text(x) => {
                if token.as_str().is_empty() {
                    out.push(MdEvent::Text(x));
                    proof {
                        assert(st_of(token@, buf@) == st1);
                        assert(event_views(out@) =~= event_views(old_out) + emitted);
                    }
                } else {
                    buf.append(x.as_str());
                    proof {
                        assert(st_of(token@, buf@) == st1);
                        assert(event_views(out@) =~= event_views(old_out) + emitted);
                    }
                }
            },
            MdEvent::CodeEnd => {
                if !token.as_str().is_empty() && !buf.as_str().is_empty() {
                    let h = highlight_block(&cat.syntaxes, token.as_str(), buf.as_str());
                    let html = wrap_pre_code(h.as_str());
                    out.push(MdEvent::Html(html));
                }
                token = String::new();
                buf = String::new();
                proof {
                    assert(st_of(token@, buf@) == st1);
                    assert(event_views(out@) =~= event_views(old_out) + emitted);
                }
            },
            other => {
                out.push(other);
                proof {
                    assert(st_of(token@, buf@) == st1);
                    assert(event_views(out@) =~= event_views(old_out) + emitted);
                }
            },
        }
        proof {
            assert((event_views(old_out) + emitted) + run(ss, st1, event_views(events@)).1
                =~= event_views(old_out) + (emitted + run(ss, st1, event_views(events@)).1));
            assert(intercept_model(ss, orig) == event_views(out@) + run(
                ss,
                st_of(token@, buf@),
                event_views(events@),
            ).1);
        }
    }
    proof {
        assert(event_views(events@).len() == 0);
        assert(run(ss, st_of(token@, buf@), event_views(events@)).1
            =~= Seq::<EvModel<T>>::empty());
        assert(intercept_model(ss, orig) =~= event_views(out@));
    }
    out
}

} // verus!
