//! Properties of the driver as a whole, proved over the contracts of its parts.

use vstd::prelude::*;
use crate::classify::ROLE_COUNT;
use crate::count::{count_marked, lemma_count_agree};
use crate::listing::{Finding, catalogue, findings, lemma_findings_nonempty, pattern_matches};
use crate::path::{lowercase_of, opt_view};
use crate::plan::{
    BuildError,
    BuildPlan,
    BuildRequest,
    SlotBinding,
    all_accepted,
    first_rejected,
    input_path,
    input_role,
    object_count,
    object_marks,
    output_stem,
    plan_error,
    plan_of,
    plannable,
    rejection_error,
    string_views,
};
use crate::script::{
    block_bytes,
    body_bytes,
    bindings_bytes,
    footer_bytes,
    group_bytes,
    script_bytes,
    text_bytes,
};
use crate::artifact::artifact_bytes;
use crate::session::{Build, Event, Step, closing_step, transition};
use crate::slots::{FIRST_SLOT, SLOT_COUNT, SLOT_END};
use crate::text::is_suffix;

verus! {

/// Two requests name the same files, in the same order.
pub open spec fn same_files(req1: BuildRequest, req2: BuildRequest) -> bool {
    string_views(req1.files@) == string_views(req2.files@)
}

/// The planned inputs of two plans agree in path, role and slot.
pub open spec fn same_inputs(p1: BuildPlan, p2: BuildPlan) -> bool {
    &&& p1.inputs.len() == p2.inputs.len()
    &&& forall|i: int|
        0 <= i < p1.inputs.len() ==> {
            &&& (#[trigger] p1.inputs@[i]).path@ == p2.inputs@[i].path@
            &&& p1.inputs@[i].role == p2.inputs@[i].role
            &&& p1.inputs@[i].slot == p2.inputs@[i].slot
        }
}

proof fn lemma_same_files_same_paths(req1: BuildRequest, req2: BuildRequest)
    requires
        same_files(req1, req2),
    ensures
        req1.files.len() == req2.files.len(),
        forall|i: int|
            0 <= i < req1.files.len() ==> #[trigger] input_path(req1, i) == input_path(req2, i)
                && req1.files@[i]@ == req2.files@[i]@,
        forall|n: int|
            n <= req1.files.len() ==> #[trigger] count_marked(object_marks(req1), n)
                == count_marked(object_marks(req2), n),
{
    assert(string_views(req1.files@).len() == req1.files.len());
    assert(string_views(req2.files@).len() == req2.files.len());
    assert forall|i: int| 0 <= i < req1.files.len() implies #[trigger] input_path(req1, i)
        == input_path(req2, i) && req1.files@[i]@ == req2.files@[i]@ by {
        assert(string_views(req1.files@)[i] == req1.files@[i]@);
        assert(string_views(req2.files@)[i] == req2.files@[i]@);
    }
    assert forall|n: int| n <= req1.files.len() implies #[trigger] count_marked(
        object_marks(req1),
        n,
    ) == count_marked(object_marks(req2), n) by {
        assert forall|i: int| 0 <= i < n implies #[trigger] object_marks(req1)(i) == object_marks(
            req2,
        )(i) by {
            assert(input_path(req1, i) == input_path(req2, i));
        }
        lemma_count_agree(object_marks(req1), object_marks(req2), n);
    }
}

/// Classification is total and deterministic: when every input has a role,
/// planning can fail only for want of slots (`plan_build` also states that
/// every input with a recognized extension has a role); and two plans of
/// the same list of files hold the same inputs, with the same roles and
/// slots, in the same order, hence the same groups.
pub proof fn classification_total_and_deterministic(
    req1: BuildRequest,
    req2: BuildRequest,
    p1: BuildPlan,
    p2: BuildPlan,
    e: BuildError,
)
    requires
        same_files(req1, req2),
        plan_of(req1, p1),
        plan_of(req2, p2),
    ensures
        all_accepted(req1) && plan_error(req1, e) ==> e is TooManyObjects,
        same_inputs(p1, p2),
{
    lemma_same_files_same_paths(req1, req2);
    if all_accepted(req1) && plan_error(req1, e) {
        if exists|i: int| #[trigger] first_rejected(req1, i) {
            let i = choose|i: int| #[trigger] first_rejected(req1, i);
            assert(input_role(req1, i) is Ok);
        }
    }
    assert forall|i: int| 0 <= i < p1.inputs.len() implies {
        &&& (#[trigger] p1.inputs@[i]).path@ == p2.inputs@[i].path@
        &&& p1.inputs@[i].role == p2.inputs@[i].role
        &&& p1.inputs@[i].slot == p2.inputs@[i].slot
    } by {
        assert(input_path(req1, i) == input_path(req2, i));
        assert(count_marked(object_marks(req1), i) == count_marked(object_marks(req2), i));
    }
}

/// An input without a role (no extension, an unknown one, or a finished
/// executable) fails the build at planning with a classification error; as
/// `Build::start` then yields no build, no program is ever run.
pub proof fn rejected_input_stops_build(req: BuildRequest, i: int, e: BuildError)
    requires
        0 <= i < req.files.len(),
        input_role(req, i) is Err,
        plan_error(req, e),
    ensures
        !plannable(req),
        e is NoExtension || e is UnknownExtension || e is ExecutableInput,
{
    assert(!all_accepted(req));
}

/// Slots go to the objects in input order, one each, from the first slot
/// up, all within the namespace (hence distinct).
pub proof fn slot_allocation(req: BuildRequest, p: BuildPlan)
    requires
        plannable(req),
        plan_of(req, p),
    ensures
        p.slots.len() == object_count(req) <= SLOT_COUNT,
        forall|k: int|
            0 <= k < p.slots.len() ==> (#[trigger] p.slots@[k]).slot == FIRST_SLOT + k
                && p.slots@[k].slot < SLOT_END,
        forall|k1: int, k2: int|
            0 <= k1 < k2 < p.slots.len() ==> (#[trigger] p.slots@[k1]).slot
                < (#[trigger] p.slots@[k2]).slot,
{
}

/// With every input accepted but more objects than slots, planning fails
/// for want of slots, before any script exists.
pub proof fn too_many_objects_stop_build(req: BuildRequest, e: BuildError)
    requires
        all_accepted(req),
        object_count(req) > SLOT_COUNT,
        plan_error(req, e),
    ensures
        !plannable(req),
        e is TooManyObjects,
{
    if exists|i: int| #[trigger] first_rejected(req, i) {
        let i = choose|i: int| #[trigger] first_rejected(req, i);
        assert(input_role(req, i) is Ok);
    }
}

/// The entry symbol of an executable depends on the first input alone:
/// `main` when it is a BEMSH source (its name ends in `.bemsh`, any case),
/// `program` otherwise, whatever the later inputs are.
pub proof fn entry_symbol_from_first_input(
    req1: BuildRequest,
    req2: BuildRequest,
    p1: BuildPlan,
    p2: BuildPlan,
)
    requires
        plan_of(req1, p1),
        plan_of(req2, p2),
        req1.files@[0]@ == req2.files@[0]@,
        req1.stop_at_object == req2.stop_at_object,
    ensures
        footer_bytes(p1.stop_at_object, p1.entry_main) == footer_bytes(
            p2.stop_at_object,
            p2.entry_main,
        ),
        !p1.stop_at_object ==> footer_bytes(p1.stop_at_object, p1.entry_main) == text_bytes(
            "*library:22\n*call overlay\n"@,
        ) + text_bytes(
            if is_suffix(lowercase_of(req1.files@[0]@), lowercase_of(".bemsh"@)) {
                "main"@
            } else {
                "program"@
            },
        ) + text_bytes("\n*end record\n*end file\n"@),
{
}

/// A listing line that matches a failure signature fails the build, whatever
/// the processor's exit status: the failure is recorded and the next step is
/// cleanup or the end, never the artifact.
pub proof fn signature_fails_build(
    plan: BuildPlan,
    status: Option<i32>,
    lines: Seq<Seq<char>>,
    found: Vec<Finding>,
    i: int,
    k: int,
)
    requires
        found@ == findings(catalogue(), lines),
        0 <= i < lines.len(),
        0 <= k < catalogue().len(),
        pattern_matches(catalogue()[k], lines[i]),
    ensures
        ({
            let (scan, after_run) = transition(plan, Step::RunProcessor, None, Event::Exited(status));
            let (next, failure) = transition(plan, scan, after_run, Event::Scanned(found));
            &&& scan == Step::ScanListing
            &&& failure is Some
            &&& next == closing_step(plan)
            &&& next != Step::WriteArtifact
        }),
{
    lemma_findings_nonempty(catalogue(), lines, lines.len() as int);
}

/// Once a build has failed it stays failed and never writes the artifact.
pub proof fn failure_is_final(b: Build, event: Event)
    requires
        b.wf(),
        b.spec_failure() is Some,
    ensures
        ({
            let (next, failure) = transition(b.spec_plan(), b.spec_step(), b.spec_failure(), event);
            failure == b.spec_failure() && next != Step::WriteArtifact
        }),
{
}

proof fn lemma_bindings_agree(s1: Seq<SlotBinding>, s2: Seq<SlotBinding>, n: int)
    requires
        0 <= n <= s1.len(),
        s1.len() == s2.len(),
        forall|k: int| 0 <= k < s1.len() ==> (#[trigger] s1[k]).slot == s2[k].slot,
    ensures
        bindings_bytes(s1, n) == bindings_bytes(s2, n),
    decreases n,
{
    if n > 0 {
        lemma_bindings_agree(s1, s2, n - 1);
    }
}

proof fn lemma_groups_agree(
    p1: BuildPlan,
    p2: BuildPlan,
    sources: Seq<Seq<u8>>,
    r: int,
    n: int,
)
    requires
        same_inputs(p1, p2),
        0 <= n <= p1.inputs.len(),
    ensures
        group_bytes(p1.inputs@, sources, r, n) == group_bytes(p2.inputs@, sources, r, n),
    decreases n,
{
    if n > 0 {
        lemma_groups_agree(p1, p2, sources, r, n - 1);
        assert(p1.inputs@[n - 1].role == p2.inputs@[n - 1].role);
        assert(block_bytes(p1.inputs@[n - 1], sources[n - 1]) == block_bytes(
            p2.inputs@[n - 1],
            sources[n - 1],
        ));
    }
}

proof fn lemma_body_agree(p1: BuildPlan, p2: BuildPlan, sources: Seq<Seq<u8>>, r: int)
    requires
        same_inputs(p1, p2),
    ensures
        body_bytes(p1.inputs@, sources, r) == body_bytes(p2.inputs@, sources, r),
    decreases r,
{
    if r > 0 {
        lemma_body_agree(p1, p2, sources, r - 1);
        lemma_groups_agree(p1, p2, sources, r - 1, p1.inputs.len() as int);
    }
}

/// Building twice from the same inputs, in the same mode, on the same
/// sources, with a processor that yields the same result, writes the same
/// script and the same artifact bytes, whatever the output is named; with
/// the same output name it goes to the same path. The driver adds nothing
/// that varies from run to run.
pub proof fn build_is_reproducible(
    req1: BuildRequest,
    req2: BuildRequest,
    p1: BuildPlan,
    p2: BuildPlan,
    sources: Seq<Seq<u8>>,
    result: Seq<u8>,
)
    requires
        same_files(req1, req2),
        req1.files.len() > 0,
        req1.stop_at_object == req2.stop_at_object,
        plannable(req1),
        plan_of(req1, p1),
        plan_of(req2, p2),
    ensures
        script_bytes(p1, sources) == script_bytes(p2, sources),
        artifact_bytes(p1.stop_at_object, result) == artifact_bytes(p2.stop_at_object, result),
        opt_view(req1.output_file) == opt_view(req2.output_file) ==> p1.output_file@
            == p2.output_file@ && p1.script_file@ == p2.script_file@,
{
    lemma_same_files_same_paths(req1, req2);
    assert(input_path(req1, 0) == input_path(req2, 0));
    assert(req1.files@[0]@ == req2.files@[0]@);
    if opt_view(req1.output_file) == opt_view(req2.output_file) {
        match (req1.output_file, req2.output_file) {
            (Some(o1), Some(o2)) => assert(o1@ == o2@),
            _ => {},
        }
        assert(output_stem(req1) == output_stem(req2));
    }
    classification_total_and_deterministic(req1, req2, p1, p2, BuildError::Processor { status: None });
    assert(object_count(req1) == object_count(req2));
    lemma_bindings_agree(p1.slots@, p2.slots@, p1.slots.len() as int);
    lemma_body_agree(p1, p2, sources, ROLE_COUNT as int);
}

} // verus!
