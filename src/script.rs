//! The job script handed to the batch processor.
//!
//! Its layout: a fixed header, one `*file:` line per slot binding, a
//! listing directive, then the inputs grouped by role in the order of
//! `Role`'s variants (input order within a group), each source preceded by
//! its directive and each object called from its slot, then the footer of
//! the build mode.

use vstd::prelude::*;
use vstd::string::*;
use vstd::utf8::encode_utf8;
use crate::classify::{ROLE_COUNT, Role, rank, role_rank};
use crate::plan::{BuildPlan, PlannedInput, SlotBinding};
use crate::slots::{
    FIRST_SLOT,
    binding_line,
    reference_line,
    slot_binding_line,
    slot_reference_line,
};

verus! {

/// The bytes of a text.
pub open spec fn text_bytes(t: Seq<char>) -> Seq<u8> {
    encode_utf8(t)
}

/// Job name, disc and output file.
pub open spec fn header_text() -> Seq<char> {
    "*name compile\n*disc:1/local\n*file:output,60,w\n"@
}

/// Single-page, long-form listings.
pub open spec fn listing_mode_text() -> Seq<char> {
    "*call setftn:one,long\n"@
}

/// The line that introduces a source of the given role.
pub open spec fn directive_text(role: Role) -> Seq<char> {
    match role {
        Role::Ftn => "*ftn\n"@,
        Role::Fortran => "*fortran\n"@,
        Role::Forex => "*forex\n"@,
        Role::Algol => "*algol\n"@,
        Role::Pascal => "*pascal\n"@,
        Role::Assem => "*assem\n"@,
        Role::Madlen => "*madlen\n"@,
        Role::Bemsh => "*bemsh\n"@,
        Role::Object => ""@,
        Role::Intermediate => ""@,
    }
}

/// The entry symbol of an executable: `main` for a BEMSH program, else `program`.
pub open spec fn entry_text(entry_main: bool) -> Seq<char> {
    if entry_main {
        "main"@
    } else {
        "program"@
    }
}

/// The footer: store the objects as a library, or link an overlay that
/// starts at the entry symbol.
pub open spec fn footer_bytes(stop_at_object: bool, entry_main: bool) -> Seq<u8> {
    if stop_at_object {
        text_bytes("*call to perso: 60\n*end file\n"@)
    } else {
        text_bytes("*library:22\n*call overlay\n"@) + text_bytes(entry_text(entry_main)) + text_bytes(
            "\n*end record\n*end file\n"@,
        )
    }
}

/// The script lines of the first `n` slot bindings.
pub open spec fn bindings_bytes(slots: Seq<SlotBinding>, n: int) -> Seq<u8>
    decreases n,
{
    if n <= 0 {
        seq![]
    } else {
        bindings_bytes(slots, n - 1) + text_bytes(binding_line(slots[n - 1].slot as int))
    }
}

/// The block of one input: an object's call, or a source's directive and bytes.
pub open spec fn block_bytes(input: PlannedInput, source: Seq<u8>) -> Seq<u8> {
    if input.role == Role::Object {
        text_bytes(reference_line(input.slot->Some_0 as int))
    } else {
        text_bytes(directive_text(input.role)) + source
    }
}

/// The blocks of the inputs of rank `r` among the first `n`.
pub open spec fn group_bytes(
    inputs: Seq<PlannedInput>,
    sources: Seq<Seq<u8>>,
    r: int,
    n: int,
) -> Seq<u8>
    decreases n,
{
    if n <= 0 {
        seq![]
    } else {
        group_bytes(inputs, sources, r, n - 1) + if rank(inputs[n - 1].role) == r {
            block_bytes(inputs[n - 1], sources[n - 1])
        } else {
            seq![]
        }
    }
}

/// The groups of ranks below `r`, one after the other.
pub open spec fn body_bytes(inputs: Seq<PlannedInput>, sources: Seq<Seq<u8>>, r: int) -> Seq<u8>
    decreases r,
{
    if r <= 0 {
        seq![]
    } else {
        body_bytes(inputs, sources, r - 1) + group_bytes(inputs, sources, r - 1, inputs.len() as int)
    }
}

/// The views of a sequence of byte vectors.
pub open spec fn byte_views(s: Seq<Vec<u8>>) -> Seq<Seq<u8>> {
    s.map_values(|v: Vec<u8>| v@)
}

/// The whole script of a plan, given the bytes of each input (those of an
/// object are not used).
pub open spec fn script_bytes(plan: BuildPlan, sources: Seq<Seq<u8>>) -> Seq<u8> {
    text_bytes(header_text()) + bindings_bytes(plan.slots@, plan.slots.len() as int) + text_bytes(
        listing_mode_text(),
    ) + body_bytes(plan.inputs@, sources, ROLE_COUNT as int) + footer_bytes(
        plan.stop_at_object,
        plan.entry_main,
    )
}

fn push_text(out: &mut Vec<u8>, t: &str)
    ensures
        final(out)@ == old(out)@ + text_bytes(t@),
{
    let mut b = t.as_bytes_vec();
    out.append(&mut b);
}

fn push_bytes(out: &mut Vec<u8>, src: &Vec<u8>)
    ensures
        final(out)@ == old(out)@ + src@,
{
    let ghost start = out@;
    let mut i: usize = 0;
    while i < src.len()
        invariant
            i <= src.len(),
            out@ == start + src@.take(i as int),
        decreases src.len() - i,
    {
        out.push(src[i]);
        assert(src@.take(i + 1) =~= src@.take(i as int).push(src@[i as int]));
        i += 1;
    }
    assert(src@.take(i as int) =~= src@);
}

fn directive(role: Role) -> (s: &'static str)
    ensures
        s@ == directive_text(role),
{
    match role {
        Role::Ftn => "*ftn\n",
        Role::Fortran => "*fortran\n",
        Role::Forex => "*forex\n",
        Role::Algol => "*algol\n",
        Role::Pascal => "*pascal\n",
        Role::Assem => "*assem\n",
        Role::Madlen => "*madlen\n",
        Role::Bemsh => "*bemsh\n",
        Role::Object => "",
        Role::Intermediate => "",
    }
}

/// Appends the footer of the build mode.
fn push_footer(out: &mut Vec<u8>, stop_at_object: bool, entry_main: bool)
    ensures
        final(out)@ == old(out)@ + footer_bytes(stop_at_object, entry_main),
{
    if stop_at_object {
        push_text(out, "*call to perso: 60\n*end file\n");
    } else {
        push_text(out, "*library:22\n*call overlay\n");
        push_text(
            out,
            if entry_main {
                "main"
            } else {
                "program"
            },
        );
        push_text(out, "\n*end record\n*end file\n");
    }
}

/// Renders the script of `plan`; `sources[i]` holds the bytes of the `i`-th
/// input (what it holds for an object is not used).
pub fn render_script(plan: &BuildPlan, sources: &Vec<Vec<u8>>) -> (r: Vec<u8>)
    requires
        plan.slots_in_range(),
        sources.len() == plan.inputs.len(),
    ensures
        r@ == script_bytes(*plan, byte_views(sources@)),
{
    let ghost srcs = byte_views(sources@);
    let mut out: Vec<u8> = Vec::new();
    push_text(&mut out, "*name compile\n*disc:1/local\n*file:output,60,w\n");
    let ghost head = out@;
    let mut k: usize = 0;
    while k < plan.slots.len()
        invariant
            plan.slots_in_range(),
            k <= plan.slots.len(),
            out@ == head + bindings_bytes(plan.slots@, k as int),
        decreases plan.slots.len() - k,
    {
        let line = slot_binding_line(plan.slots[k].slot);
        push_text(&mut out, line.as_str());
        k += 1;
    }
    push_text(&mut out, "*call setftn:one,long\n");
    let ghost before_body = out@;
    let n = plan.inputs.len();
    let mut r: usize = 0;
    while r < ROLE_COUNT
        invariant
            plan.slots_in_range(),
            n == plan.inputs.len(),
            n == sources.len(),
            srcs == byte_views(sources@),
            r <= ROLE_COUNT,
            out@ == before_body + body_bytes(plan.inputs@, srcs, r as int),
        decreases ROLE_COUNT - r,
    {
        let ghost group_start = out@;
        let mut i: usize = 0;
        while i < n
            invariant
                plan.slots_in_range(),
                n == plan.inputs.len(),
                n == sources.len(),
                srcs == byte_views(sources@),
                r < ROLE_COUNT,
                i <= n,
                out@ == group_start + group_bytes(plan.inputs@, srcs, r as int, i as int),
            decreases n - i,
        {
            let input = &plan.inputs[i];
            if role_rank(input.role) == r {
                if input.role == Role::Object {
                    let slot = match input.slot {
                        Some(s) => s,
                        None => FIRST_SLOT,
                    };
                    let line = slot_reference_line(slot);
                    push_text(&mut out, line.as_str());
                } else {
                    push_text(&mut out, directive(input.role));
                    push_bytes(&mut out, &sources[i]);
                }
            }
            assert(srcs[i as int] == sources@[i as int]@);
            i += 1;
        }
        r += 1;
    }
    push_footer(&mut out, plan.stop_at_object, plan.entry_main);
    out
}

} // verus!
