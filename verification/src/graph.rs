//! A graph under construction, as a state machine that plans OpenVX calls
//! and takes their replies back.
//!
//! Every operation on a graph appends the calls it needs as steps. A driver
//! asks `next_action` for the next call, performs it and hands the reply to
//! `complete`, until the graph is idle or a step fails. Steps keep their
//! numbers for good: when a step fails and its error is returned, it and
//! every step still pending are marked dropped, and no later call may name
//! an object of a dropped step.
use vstd::prelude::*;

use crate::call::{
    Action, Call, CallModel, ObjectKind, OnFailure, Operand, Progress, Reply, Step, StepModel,
};
use crate::consts::VX_SUCCESS;
use crate::error::{convert_error, ErrorKind};

verus! {

/// How many of the first `n` steps added a parameter to the graph and were
/// not dropped.
pub open spec fn adds_before(steps: Seq<StepModel>, dropped: Seq<bool>, n: nat) -> nat
    decreases n,
{
    if n == 0 {
        0
    } else {
        adds_before(steps, dropped, (n - 1) as nat) + if steps[n - 1].call.is_add_parameter()
            && !dropped[n - 1] {
            1nat
        } else {
            0nat
        }
    }
}

/// The abstract state of a graph: its handle, the context it belongs to, how
/// many graph parameters it has, every step planned so far, the values of
/// the steps already performed or dropped (`values[i]` for step `i`) and
/// which of those were dropped.
pub struct GraphModel {
    pub handle: u64,
    pub context: u64,
    pub param_num: nat,
    pub steps: Seq<StepModel>,
    pub values: Seq<u64>,
    pub dropped: Seq<bool>,
}

impl GraphModel {
    /// The steps performed or dropped form a prefix of the planned ones;
    /// every step names only objects of earlier steps, and no pending step
    /// names one of a dropped step; the graph parameters are numbered in the
    /// order in which they were added; a dropped step holds the value 0.
    pub open spec fn wf(self) -> bool {
        &&& self.values.len() <= self.steps.len()
        &&& self.steps.len() <= usize::MAX
        &&& self.dropped.len() == self.values.len()
        &&& forall|i: int|
            0 <= i < self.steps.len() ==> (#[trigger] self.steps[i]).call.refers_below(i as nat)
        &&& forall|i: int|
            self.values.len() <= i < self.steps.len() ==> (#[trigger] self.steps[i]).call.avoids(
                self.dropped,
            )
        &&& self.param_num == adds_before(self.steps, self.dropped, self.values.len())
        &&& forall|i: int|
            0 <= i < self.values.len() && (#[trigger] self.steps[i]).call.is_add_parameter()
                && !self.dropped[i] ==> self.values[i] == adds_before(
                self.steps,
                self.dropped,
                i as nat,
            )
        &&& forall|i: int| 0 <= i < self.values.len() && #[trigger] self.dropped[i] ==> self.values[i] == 0
    }

    /// Some planned step has not been performed or dropped yet.
    pub open spec fn pending(self) -> bool {
        self.values.len() < self.steps.len()
    }

    /// The next step to perform.
    pub open spec fn current(self) -> StepModel {
        self.steps[self.values.len() as int]
    }

    /// The steps planned but not performed or dropped yet.
    pub open spec fn pending_steps(self) -> Seq<StepModel> {
        self.steps.skip(self.values.len() as int)
    }

    /// Step `i` was dropped.
    pub open spec fn is_dropped(self, i: int) -> bool {
        0 <= i < self.dropped.len() && self.dropped[i]
    }

    /// `o` names an object a new step may use: a handle, or a step planned
    /// already and not dropped.
    pub open spec fn live(self, o: Operand) -> bool {
        o.refers_below(self.steps.len()) && o.avoids(self.dropped)
    }

    /// Every object `c` names is one a new step may use.
    pub open spec fn live_call(self, c: CallModel<Operand>) -> bool {
        c.refers_below(self.steps.len()) && c.avoids(self.dropped)
    }

    /// There is room for `n` more steps.
    pub open spec fn has_room(self, n: nat) -> bool {
        self.steps.len() + n <= usize::MAX
    }

    pub open spec fn next_action(self) -> Action<Seq<u8>> {
        if self.pending() {
            Action::Perform(self.current().call.resolve_spec(self.values))
        } else {
            Action::Idle
        }
    }

    /// The state after the reply to the current step, and what it meant. A
    /// success records the step's value. A failure of a step whose error is
    /// returned drops it and every step still pending: later steps may use
    /// the objects the failed one was to make, so none of them is
    /// performed. A failure that stops the program changes nothing.
    pub open spec fn complete(self, reply: Reply) -> (GraphModel, Progress) {
        let step = self.current();
        if reply.status == VX_SUCCESS {
            (
                GraphModel {
                    values: self.values.push(step.call.value_after(reply, self.param_num)),
                    dropped: self.dropped.push(false),
                    param_num: if step.call.is_add_parameter() {
                        self.param_num + 1
                    } else {
                        self.param_num
                    },
                    ..self
                },
                Progress::Continue,
            )
        } else if step.on_failure is Propagate {
            let k = (self.steps.len() - self.values.len()) as nat;
            (
                GraphModel {
                    values: self.values + Seq::new(k, |i: int| 0u64),
                    dropped: self.dropped + Seq::new(k, |i: int| true),
                    ..self
                },
                Progress::Failed(ErrorKind::ErrorNotImplemented),
            )
        } else {
            (self, Progress::Abort)
        }
    }

    /// The state with `extra` planned after the existing steps.
    pub open spec fn append(self, extra: Seq<StepModel>) -> GraphModel {
        GraphModel { steps: self.steps + extra, ..self }
    }

    /// Drives the graph with `replies`: the state it reaches, the calls it
    /// performs and what the last reply meant. Driving stops when the graph
    /// is idle, the replies run out, or a call fails.
    pub open spec fn run(self, replies: Seq<Reply>) -> (GraphModel, Seq<CallModel<u64>>, Progress)
        decreases replies.len(),
    {
        if replies.len() == 0 || !self.pending() {
            (self, Seq::empty(), Progress::Continue)
        } else {
            let call = self.current().call.resolve_spec(self.values);
            let (next, progress) = self.complete(replies[0]);
            if progress is Continue {
                let (last, calls, p) = next.run(replies.drop_first());
                (last, seq![call] + calls, p)
            } else {
                (next, seq![call], progress)
            }
        }
    }
}

/// Steps that, placed from step `base` on, name only objects of earlier
/// steps and none of a dropped step.
pub open spec fn steps_fit(extra: Seq<StepModel>, base: nat, dropped: Seq<bool>) -> bool {
    forall|j: int|
        0 <= j < extra.len() ==> (#[trigger] extra[j]).call.refers_below((base + j) as nat)
            && extra[j].call.avoids(dropped)
}

proof fn lemma_adds_before_bound(s: Seq<StepModel>, d: Seq<bool>, n: nat)
    ensures
        adds_before(s, d, n) <= n,
    decreases n,
{
    if n > 0 {
        lemma_adds_before_bound(s, d, (n - 1) as nat);
    }
}

/// The count depends only on the first `n` steps and marks.
proof fn lemma_adds_before_agree(
    s1: Seq<StepModel>,
    d1: Seq<bool>,
    s2: Seq<StepModel>,
    d2: Seq<bool>,
    n: nat,
)
    requires
        forall|i: int| 0 <= i < n ==> s1[i] == s2[i] && d1[i] == d2[i],
    ensures
        adds_before(s1, d1, n) == adds_before(s2, d2, n),
    decreases n,
{
    if n > 0 {
        lemma_adds_before_agree(s1, d1, s2, d2, (n - 1) as nat);
    }
}

/// Dropped steps add nothing to the count.
proof fn lemma_adds_before_dropped_tail(s: Seq<StepModel>, d: Seq<bool>, n: nat, m: nat)
    requires
        n <= m,
        forall|i: int| n <= i < m ==> d[i],
    ensures
        adds_before(s, d, m) == adds_before(s, d, n),
    decreases m,
{
    if n < m {
        lemma_adds_before_dropped_tail(s, d, n, (m - 1) as nat);
    }
}

proof fn lemma_adds_before_monotone(s: Seq<StepModel>, d: Seq<bool>, i: nat, n: nat)
    requires
        i < n,
        s[i as int].call.is_add_parameter(),
        !d[i as int],
    ensures
        adds_before(s, d, i) < adds_before(s, d, n),
    decreases n,
{
    if i + 1 < n {
        lemma_adds_before_monotone(s, d, i, (n - 1) as nat);
    }
}

/// A call that names no dropped step still names none after one more step
/// is performed.
proof fn lemma_avoids_push_performed(c: CallModel<Operand>, d: Seq<bool>)
    requires
        c.avoids(d),
    ensures
        c.avoids(d.push(false)),
{
    assert forall|o: Operand| o.avoids(d) implies #[trigger] o.avoids(d.push(false)) by {
        if let Operand::Earlier(k) = o {
            if k < d.len() {
                assert(d.push(false)[k as int] == d[k as int]);
            }
        }
    }
}

/// Planning more steps keeps a graph well formed.
pub proof fn lemma_append_wf(m: GraphModel, extra: Seq<StepModel>)
    requires
        m.wf(),
        m.has_room(extra.len()),
        steps_fit(extra, m.steps.len(), m.dropped),
    ensures
        m.append(extra).wf(),
        m.append(extra).pending_steps() == m.pending_steps() + extra,
{
    let a = m.append(extra);
    assert forall|i: int| 0 <= i < a.steps.len() implies (#[trigger] a.steps[i]).call.refers_below(
        i as nat,
    ) by {
        if i >= m.steps.len() {
            assert(a.steps[i] == extra[i - m.steps.len()]);
        }
    }
    assert forall|i: int| a.values.len() <= i < a.steps.len() implies (
    #[trigger] a.steps[i]).call.avoids(a.dropped) by {
        if i >= m.steps.len() {
            assert(a.steps[i] == extra[i - m.steps.len()]);
        }
    }
    lemma_adds_before_agree(m.steps, m.dropped, a.steps, a.dropped, m.values.len());
    assert forall|i: int|
        0 <= i < a.values.len() && (#[trigger] a.steps[i]).call.is_add_parameter() && !a.dropped[i]
            implies a.values[i] == adds_before(a.steps, a.dropped, i as nat) by {
        lemma_adds_before_agree(m.steps, m.dropped, a.steps, a.dropped, i as nat);
    }
    assert(a.pending_steps() =~= m.pending_steps() + extra);
}

/// Performing, dropping or failing a step keeps a graph well formed.
pub proof fn lemma_complete_wf(m: GraphModel, reply: Reply)
    requires
        m.wf(),
        m.pending(),
    ensures
        m.complete(reply).0.wf(),
{
    let n = m.values.len();
    let (next, _) = m.complete(reply);
    if reply.status == VX_SUCCESS {
        lemma_adds_before_agree(m.steps, m.dropped, next.steps, next.dropped, n);
        lemma_adds_before_bound(m.steps, m.dropped, n);
        assert forall|i: int|
            0 <= i < next.values.len() && (#[trigger] next.steps[i]).call.is_add_parameter()
                && !next.dropped[i] implies next.values[i] == adds_before(
            next.steps,
            next.dropped,
            i as nat,
        ) by {
            lemma_adds_before_agree(m.steps, m.dropped, next.steps, next.dropped, i as nat);
            if i < n {
                assert(next.values[i] == m.values[i]);
            }
        }
        assert forall|i: int| 0 <= i < next.values.len() && #[trigger] next.dropped[i] implies next.values[i]
            == 0 by {
            assert(i < n);
        }
        assert forall|i: int| next.values.len() <= i < next.steps.len() implies (
        #[trigger] next.steps[i]).call.avoids(next.dropped) by {
            lemma_avoids_push_performed(m.steps[i].call, m.dropped);
        }
    } else if m.current().on_failure is Propagate {
        let len = m.steps.len();
        lemma_adds_before_agree(m.steps, m.dropped, next.steps, next.dropped, n);
        lemma_adds_before_dropped_tail(next.steps, next.dropped, n, len);
        assert forall|i: int|
            0 <= i < next.values.len() && (#[trigger] next.steps[i]).call.is_add_parameter()
                && !next.dropped[i] implies next.values[i] == adds_before(
            next.steps,
            next.dropped,
            i as nat,
        ) by {
            lemma_adds_before_agree(m.steps, m.dropped, next.steps, next.dropped, i as nat);
            assert(next.values[i] == m.values[i]);
        }
        assert forall|i: int| 0 <= i < next.values.len() && #[trigger] next.dropped[i] implies next.values[i]
            == 0 by {
            if i < n {
                assert(next.dropped[i] == m.dropped[i]);
            }
        }
    }
}

/// Planning `a` and then `b` is planning `a + b`.
pub proof fn lemma_append_append(m: GraphModel, a: Seq<StepModel>, b: Seq<StepModel>)
    ensures
        m.append(a).append(b) == m.append(a + b),
{
    assert(m.steps + a + b =~= m.steps + (a + b));
}

/// Resolving a call against longer values gives the same handles, as long
/// as the call names only objects of the shorter prefix.
proof fn lemma_resolve_prefix(call: CallModel<Operand>, v: Seq<u64>, w: Seq<u64>)
    requires
        call.refers_below(v.len()),
        v.len() <= w.len(),
        w.take(v.len() as int) == v,
    ensures
        call.resolve_spec(v) == call.resolve_spec(w),
{
    assert forall|o: Operand| o.refers_below(v.len()) implies #[trigger] o.resolve_spec(v)
        == o.resolve_spec(w) by {
        if let Operand::Earlier(k) = o {
            assert(w.take(v.len() as int)[k as int] == w[k as int]);
        }
    }
}

/// When OpenVX accepts every call, driving a graph performs exactly its
/// pending calls, in order, each with the objects of earlier steps
/// substituted; afterwards nothing is pending, none of those steps is
/// dropped, each holds what OpenVX handed back, and the graph has one
/// parameter per parameter added by a step that was not dropped.
pub proof fn lemma_run_all_accepted(m: GraphModel, replies: Seq<Reply>)
    requires
        m.wf(),
        replies.len() == m.steps.len() - m.values.len(),
        forall|i: int| 0 <= i < replies.len() ==> (#[trigger] replies[i]).status == VX_SUCCESS,
    ensures
        ({
            let (last, calls, progress) = m.run(replies);
            &&& progress == Progress::Continue
            &&& last.wf()
            &&& !last.pending()
            &&& last.steps == m.steps
            &&& last.values.len() == m.steps.len()
            &&& last.values.take(m.values.len() as int) == m.values
            &&& last.dropped.take(m.values.len() as int) == m.dropped
            &&& forall|i: int| m.values.len() <= i < m.steps.len() ==> !#[trigger] last.dropped[i]
            &&& last.param_num == adds_before(m.steps, last.dropped, m.steps.len())
            &&& calls.len() == replies.len()
            &&& forall|i: int|
                0 <= i < calls.len() ==> #[trigger] calls[i] == m.steps[m.values.len()
                    + i].call.resolve_spec(last.values)
            &&& forall|i: int|
                0 <= i < replies.len() && makes_object(m.steps[m.values.len() + i].call)
                    ==> last.values[m.values.len() + i] == #[trigger] replies[i].value
        }),
    decreases replies.len(),
{
    let n = m.values.len() as int;
    if replies.len() == 0 {
        assert(m.values.take(n) =~= m.values);
        assert(m.dropped.take(n) =~= m.dropped);
    } else {
        let (next, p) = m.complete(replies[0]);
        lemma_complete_wf(m, replies[0]);
        let rest = replies.drop_first();
        assert forall|i: int| 0 <= i < rest.len() implies (#[trigger] rest[i]).status == VX_SUCCESS by {
            assert(rest[i] == replies[i + 1]);
        }
        lemma_run_all_accepted(next, rest);
        let (last, calls, progress) = m.run(replies);
        let (last2, calls2, p2) = next.run(rest);
        assert(last == last2 && calls == seq![m.current().call.resolve_spec(m.values)] + calls2);
        assert(next.values == m.values.push(m.current().call.value_after(replies[0], m.param_num)));
        assert(next.dropped == m.dropped.push(false));
        assert(last.values.take(n + 1) == next.values);
        assert(last.dropped.take(n + 1) == next.dropped);
        assert(last.values.take(n) =~= m.values) by {
            assert(last.values.take(n) =~= last.values.take(n + 1).take(n));
        }
        assert(last.dropped.take(n) =~= m.dropped) by {
            assert(last.dropped.take(n) =~= last.dropped.take(n + 1).take(n));
        }
        assert(!last.dropped[n]) by {
            assert(last.dropped[n] == last.dropped.take(n + 1)[n]);
        }
        lemma_resolve_prefix(m.current().call, m.values, last.values);
        assert forall|i: int| 0 <= i < calls.len() implies #[trigger] calls[i] == m.steps[n
            + i].call.resolve_spec(last.values) by {
            if i > 0 {
                assert(calls[i] == calls2[i - 1]);
            }
        }
        assert forall|i: int|
            0 <= i < replies.len() && makes_object(m.steps[n + i].call) implies last.values[n
            + i] == #[trigger] replies[i].value by {
            if i > 0 {
                assert(replies[i] == rest[i - 1]);
            } else {
                assert(last.values[n] == last.values.take(n + 1)[n]);
            }
        }
    }
}

/// When OpenVX refuses a call, driving stops there and no later call is
/// performed; the steps performed before it keep their values and are not
/// dropped, and the graph keeps every step it had. A refused step whose
/// error is returned is dropped together with every step still pending, so
/// the graph is idle; one that stops the program leaves it pending.
pub proof fn lemma_run_refused(m: GraphModel, replies: Seq<Reply>, j: int)
    requires
        m.wf(),
        0 <= j < replies.len(),
        j < m.steps.len() - m.values.len(),
        forall|i: int| 0 <= i < j ==> (#[trigger] replies[i]).status == VX_SUCCESS,
        replies[j].status != VX_SUCCESS,
    ensures
        ({
            let (last, calls, progress) = m.run(replies);
            let k = m.values.len() + j;
            &&& last.wf()
            &&& calls.len() == j + 1
            &&& last.steps == m.steps
            &&& last.values.take(m.values.len() as int) == m.values
            &&& last.dropped.take(m.values.len() as int) == m.dropped
            &&& forall|i: int| m.values.len() <= i < k ==> !#[trigger] last.dropped[i]
            &&& m.steps[k].on_failure is Propagate ==> progress == Progress::Failed(
                ErrorKind::ErrorNotImplemented,
            ) && !last.pending() && forall|i: int| k <= i < m.steps.len() ==> #[trigger] last.dropped[i]
            &&& m.steps[k].on_failure is Abort ==> progress == Progress::Abort && last.values.len() == k
        }),
    decreases j,
{
    let n = m.values.len() as int;
    lemma_complete_wf(m, replies[0]);
    if j == 0 {
        let (last, calls, progress) = m.run(replies);
        assert(last.values.take(n) =~= m.values);
        assert(last.dropped.take(n) =~= m.dropped);
    } else {
        let (next, p) = m.complete(replies[0]);
        let rest = replies.drop_first();
        assert forall|i: int| 0 <= i < j - 1 implies (#[trigger] rest[i]).status == VX_SUCCESS by {
            assert(rest[i] == replies[i + 1]);
        }
        assert(rest[j - 1] == replies[j]);
        lemma_run_refused(next, rest, j - 1);
        let (last, calls, progress) = m.run(replies);
        let (last2, calls2, p2) = next.run(rest);
        assert(last == last2 && calls.len() == calls2.len() + 1);
        assert(next.values == m.values.push(m.current().call.value_after(replies[0], m.param_num)));
        assert(next.dropped == m.dropped.push(false));
        assert(last.values.take(n) =~= m.values) by {
            assert(last.values.take(n) =~= last.values.take(n + 1).take(n));
        }
        assert(last.dropped.take(n) =~= m.dropped) by {
            assert(last.dropped.take(n) =~= last.dropped.take(n + 1).take(n));
        }
        assert(!last.dropped[n]) by {
            assert(last.dropped[n] == last.dropped.take(n + 1)[n]);
        }
    }
}

/// Graph parameters are numbered in the order they are added: the step that
/// adds the `k`-th parameter (counting from 0, dropped steps not counted)
/// holds index `k`, and the graph has as many parameters as were added by
/// its performed steps.
pub proof fn lemma_parameter_numbering(m: GraphModel, i: int)
    requires
        m.wf(),
        0 <= i < m.values.len(),
        m.steps[i].call.is_add_parameter(),
        !m.dropped[i],
    ensures
        m.values[i] == adds_before(m.steps, m.dropped, i as nat),
        adds_before(m.steps, m.dropped, i as nat) < m.param_num,
{
    lemma_adds_before_monotone(m.steps, m.dropped, i as nat, m.values.len());
}

/// No call a driver is asked to perform names an object of a dropped step,
/// and a step keeps its number: the objects of steps performed or dropped
/// are never renumbered by later planning.
pub proof fn lemma_dropped_never_used(m: GraphModel, extra: Seq<StepModel>)
    requires
        m.wf(),
        m.has_room(extra.len()),
        steps_fit(extra, m.steps.len(), m.dropped),
    ensures
        m.pending() ==> m.current().call.avoids(m.dropped),
        m.append(extra).steps.take(m.steps.len() as int) == m.steps,
        m.append(extra).values == m.values,
        m.append(extra).dropped == m.dropped,
{
    assert(m.append(extra).steps.take(m.steps.len() as int) =~= m.steps);
}

/// The call creates or looks up an OpenVX object, whose handle OpenVX hands back.
pub open spec fn makes_object<H, B>(c: Call<H, B>) -> bool {
    ||| c is CreateContext
    ||| c is CreateGraph
    ||| c is GetKernelByEnum
    ||| c is CreateImage
    ||| c is CreateImageFromHandle
    ||| c is CreateScalar
    ||| c is CreateArray
    ||| c is CreateVirtualImage
    ||| c is CreateVirtualScalar
    ||| c is CreateVirtualArray
    ||| c is CreateGenericNode
    ||| c is GetParameterByIndex
}

/// When OpenVX accepts a call that makes an object, the step keeps the
/// handle OpenVX handed back, and every later call that names the step is
/// performed with that handle; a step that adds a graph parameter keeps the
/// parameter's index, and any other step keeps 0.
pub proof fn lemma_accepted_step_value(m: GraphModel, reply: Reply)
    requires
        m.wf(),
        m.pending(),
        reply.status == VX_SUCCESS,
    ensures
        ({
            let n = m.values.len();
            let c = m.current().call;
            let next = m.complete(reply).0;
            &&& next.values.len() == n + 1
            &&& makes_object(c) ==> next.values[n as int] == reply.value
            &&& makes_object(c) ==> Operand::Earlier(n as usize).resolve_spec(next.values)
                == reply.value
            &&& c is AddParameterToGraph ==> next.values[n as int] == m.param_num
                && next.param_num == m.param_num + 1
            &&& !makes_object(c) && !(c is AddParameterToGraph) ==> next.values[n as int] == 0
                && next.param_num == m.param_num
        }),
{
    lemma_adds_before_bound(m.steps, m.dropped, m.values.len());
}

/// A graph under construction.
pub struct Graph {
    handle: u64,
    context: u64,
    param_num: usize,
    steps: Vec<Step<Vec<u8>>>,
    values: Vec<u64>,
    dropped: Vec<bool>,
}

impl View for Graph {
    type V = GraphModel;

    closed spec fn view(&self) -> GraphModel {
        GraphModel {
            handle: self.handle,
            context: self.context,
            param_num: self.param_num as nat,
            steps: self.steps@.map_values(|s: Step<Vec<u8>>| s@),
            values: self.values@,
            dropped: self.dropped@,
        }
    }
}

impl Graph {
    /// A graph with handle `handle` in context `context`, with no parameter
    /// and nothing planned.
    pub(crate) fn new(handle: u64, context: u64) -> (g: Graph)
        ensures
            g@ == (GraphModel {
                handle,
                context,
                param_num: 0,
                steps: Seq::empty(),
                values: Seq::empty(),
                dropped: Seq::empty(),
            }),
            g@.wf(),
    {
        let g = Graph {
            handle,
            context,
            param_num: 0,
            steps: Vec::new(),
            values: Vec::new(),
            dropped: Vec::new(),
        };
        proof {
            assert(g@.steps =~= Seq::<StepModel>::empty());
        }
        g
    }

    /// The graph's own handle.
    pub fn handle(&self) -> (h: u64)
        ensures
            h == self@.handle,
    {
        self.handle
    }

    /// The handle of the context the graph belongs to.
    pub fn context(&self) -> (h: u64)
        ensures
            h == self@.context,
    {
        self.context
    }

    /// How many parameters the graph has.
    pub fn param_num(&self) -> (n: usize)
        ensures
            n == self@.param_num,
    {
        self.param_num
    }

    /// How many steps have been planned.
    pub fn step_count(&self) -> (n: usize)
        ensures
            n == self@.steps.len(),
    {
        self.steps.len()
    }

    /// The value step `i` left when it was performed: the handle of the
    /// object it created or its graph parameter index; 0 for a dropped step.
    pub fn value_of(&self, i: usize) -> (v: u64)
        requires
            i < self@.values.len(),
        ensures
            v == self@.values[i as int],
    {
        self.values[i]
    }

    /// Whether step `i` was dropped.
    pub fn is_dropped(&self, i: usize) -> (b: bool)
        requires
            self@.wf(),
        ensures
            b == self@.is_dropped(i as int),
    {
        i < self.dropped.len() && self.dropped[i]
    }

    /// Whether a new step may use the object `o` names.
    pub fn is_live(&self, o: &Operand) -> (b: bool)
        requires
            self@.wf(),
        ensures
            b == self@.live(*o),
    {
        match o {
            Operand::Handle(_) => true,
            Operand::Earlier(k) => *k < self.steps.len() && !(*k < self.dropped.len()
                && self.dropped[*k]),
        }
    }

    /// Whether some planned step has not been performed or dropped yet.
    pub fn is_pending(&self) -> (b: bool)
        ensures
            b == self@.pending(),
    {
        self.values.len() < self.steps.len()
    }

    /// The call that releases the graph.
    pub fn release(&self) -> (c: Call<u64, Vec<u8>>)
        ensures
            c@ == (CallModel::Release { kind: ObjectKind::Graph, object: self@.handle }),
    {
        Call::Release { kind: ObjectKind::Graph, object: self.handle }
    }

    /// Plans one more step.
    pub(crate) fn push_step(&mut self, call: Call<Operand, Vec<u8>>, on_failure: OnFailure)
        requires
            old(self)@.wf(),
            old(self)@.has_room(1),
            old(self)@.live_call(call@),
        ensures
            final(self)@ == old(self)@.append(seq![Step { call: call@, on_failure }]),
            final(self)@.wf(),
    {
        let ghost extra = seq![Step { call: call@, on_failure }];
        proof {
            assert(extra[0] == Step { call: call@, on_failure });
            lemma_append_wf(self@, extra);
        }
        let st = Step { call, on_failure };
        assert(st@ == extra[0]);
        self.steps.push(st);
        proof {
            assert(self@.steps =~= old(self)@.steps + extra);
        }
    }

    /// The call to perform next, with every operand replaced by its handle;
    /// it names no object of a dropped step.
    pub fn next_action(&self) -> (a: Action<Vec<u8>>)
        requires
            self@.wf(),
        ensures
            a@ == self@.next_action(),
            a is Perform ==> self@.pending() && self@.current().call.avoids(self@.dropped),
    {
        let n = self.values.len();
        if n < self.steps.len() {
            let step = &self.steps[n];
            assert(self@.steps[n as int] == step@);
            Action::Perform(step.call.resolve(&self.values))
        } else {
            Action::Idle
        }
    }

    /// Takes OpenVX's reply to the call `next_action` named.
    pub fn complete(&mut self, reply: Reply) -> (p: Progress)
        requires
            old(self)@.wf(),
            old(self)@.pending(),
        ensures
            (final(self)@, p) == old(self)@.complete(reply),
            final(self)@.wf(),
    {
        proof {
            lemma_complete_wf(self@, reply);
            lemma_adds_before_bound(self@.steps, self@.dropped, self@.values.len());
        }
        let ghost m = self@;
        let n = self.values.len();
        assert(m.steps[n as int] == self.steps[n as int]@);
        assert(self.param_num <= n < self.steps.len());
        if reply.status == VX_SUCCESS {
            let value = self.steps[n].call.value_after_reply(reply, self.param_num);
            if self.steps[n].call.adds_parameter() {
                self.param_num = self.param_num + 1;
            }
            self.values.push(value);
            self.dropped.push(false);
            Progress::Continue
        } else {
            match self.steps[n].on_failure {
                OnFailure::Propagate => {
                    while self.values.len() < self.steps.len()
                        invariant
                            n <= self.values.len() <= self.steps.len(),
                            self@.steps == m.steps,
                            self.handle == m.handle,
                            self.context == m.context,
                            self.param_num == m.param_num,
                            self.values@ == m.values + Seq::new(
                                (self.values.len() - n) as nat,
                                |i: int| 0u64,
                            ),
                            self.dropped@ == m.dropped + Seq::new(
                                (self.values.len() - n) as nat,
                                |i: int| true,
                            ),
                        decreases self.steps.len() - self.values.len(),
                    {
                        let ghost k = (self.values.len() - n) as nat;
                        self.values.push(0);
                        self.dropped.push(true);
                        proof {
                            assert(self.values@ =~= m.values + Seq::new(
                                (k + 1) as nat,
                                |i: int| 0u64,
                            ));
                            assert(self.dropped@ =~= m.dropped + Seq::new(
                                (k + 1) as nat,
                                |i: int| true,
                            ));
                        }
                    }
                    Progress::Failed(convert_error(reply.status))
                },
                OnFailure::Abort => Progress::Abort,
            }
        }
    }
}

} // verus!
