//! The build plan: every decision that can be taken before any file is
//! written or any program is run.

use vstd::prelude::*;
use vstd::string::*;
use crate::classify::{Rejection, Role, classify_path, path_role};
use crate::count::{count_marked, lemma_count_monotonic};
use crate::path::{extension_of, has_extension, lowercase_of, path_with_extension, with_extension_of};
use crate::slots::{FIRST_SLOT, SLOT_COUNT, SLOT_END, staging_file_name, staging_name};
use crate::text::is_suffix;

verus! {

/// What the user asked for: the inputs in order, an optional output name,
/// whether to stop at an object library, and whether to keep temporaries.
pub struct BuildRequest {
    pub files: Vec<String>,
    pub output_file: Option<String>,
    pub stop_at_object: bool,
    pub save_temps: bool,
}

/// A Pascal source that the translator turns into an intermediate file.
pub struct Translation {
    pub source: String,
    pub target: String,
}

/// An input as the script sees it: its path after translation, its role,
/// and for an object the slot that holds it.
pub struct PlannedInput {
    pub path: String,
    pub role: Role,
    pub slot: Option<u8>,
}

/// A pre-built object bound to a slot through its staging file.
pub struct SlotBinding {
    pub source: String,
    pub slot: u8,
    pub staging: String,
}

/// Everything decided about a build before it runs.
pub struct BuildPlan {
    pub output_file: String,
    pub listing_file: String,
    pub script_file: String,
    pub stop_at_object: bool,
    pub save_temps: bool,
    /// The first input is a BEMSH source, whose entry point is `main`.
    pub entry_main: bool,
    pub translations: Vec<Translation>,
    pub inputs: Vec<PlannedInput>,
    pub slots: Vec<SlotBinding>,
    /// Files that the build creates and removes when done.
    pub temporaries: Vec<String>,
}

/// Why a build failed.
#[derive(Debug)]
pub enum BuildError {
    /// An input has no extension.
    NoExtension { file: String },
    /// An input has an extension the driver does not know.
    UnknownExtension { file: String },
    /// An input is a finished executable.
    ExecutableInput { file: String },
    /// More objects than the slot namespace holds; `file` is the first that does not fit.
    TooManyObjects { file: String },
    /// The Pascal translator failed on `file`.
    Translator { file: String, status: Option<i32> },
    /// The batch processor exited unsuccessfully.
    Processor { status: Option<i32> },
    /// The listing holds a known failure signature.
    Diagnostics { listing: String },
    /// A failure signature could not be compiled.
    BadSignature { pattern: String },
    /// A file could not be read, written, copied or removed.
    Io { path: String, reason: String },
}

/// The name of a file is a Pascal source for the translator (`.pas`, any case).
pub open spec fn is_translated(f: Seq<char>) -> bool {
    is_suffix(lowercase_of(f), lowercase_of(".pas"@))
}

/// The path under which a file enters the script.
pub open spec fn effective_path(f: Seq<char>) -> Seq<char> {
    if is_translated(f) {
        with_extension_of(f, "std"@)
    } else {
        f
    }
}

/// The name of a file has a recognized extension: a Pascal source for the
/// translator, or an extension that gives a role.
pub open spec fn recognized(f: Seq<char>) -> bool {
    if is_translated(f) {
        extension_of(f) is Some
    } else {
        path_role(f) is Ok
    }
}

/// Every input of the request has a recognized extension.
pub open spec fn all_recognized(req: BuildRequest) -> bool {
    forall|i: int| 0 <= i < req.files.len() ==> #[trigger] recognized(req.files@[i]@)
}

/// The script path of the `i`-th input of a request.
pub open spec fn input_path(req: BuildRequest, i: int) -> Seq<char> {
    effective_path(req.files@[i]@)
}

/// The role of the `i`-th input of a request.
pub open spec fn input_role(req: BuildRequest, i: int) -> Result<Role, Rejection> {
    path_role(input_path(req, i))
}

/// The name from which the output, listing and script names are made.
pub open spec fn output_stem(req: BuildRequest) -> Seq<char> {
    match req.output_file {
        Some(o) => o@,
        None => req.files@[0]@,
    }
}

/// Every input of the request has a role.
pub open spec fn all_accepted(req: BuildRequest) -> bool {
    forall|i: int| 0 <= i < req.files.len() ==> (#[trigger] input_role(req, i)) is Ok
}

/// The inputs that go to the translator.
pub open spec fn translation_marks(req: BuildRequest) -> spec_fn(int) -> bool {
    |i: int| is_translated(req.files@[i]@)
}

/// The inputs that are pre-built objects.
pub open spec fn object_marks(req: BuildRequest) -> spec_fn(int) -> bool {
    |i: int| input_role(req, i) == Ok::<Role, Rejection>(Role::Object)
}

/// How many objects the request names.
pub open spec fn object_count(req: BuildRequest) -> nat {
    count_marked(object_marks(req), req.files.len() as int)
}

/// The slot of the `i`-th input, if it is an object: slots go to objects in input order.
pub open spec fn slot_of(req: BuildRequest, i: int) -> int {
    FIRST_SLOT + count_marked(object_marks(req), i)
}

/// The request can be planned: every input is accepted and the objects fit.
pub open spec fn plannable(req: BuildRequest) -> bool {
    all_accepted(req) && object_count(req) <= SLOT_COUNT
}

/// `e` reports that `path` was rejected for reason `why`.
pub open spec fn rejection_error(why: Rejection, path: Seq<char>, e: BuildError) -> bool {
    match why {
        Rejection::NoExtension => e matches BuildError::NoExtension { file } && file@ == path,
        Rejection::Executable => e matches BuildError::ExecutableInput { file } && file@ == path,
        Rejection::Unknown => e matches BuildError::UnknownExtension { file } && file@ == path,
    }
}

/// The `i`-th input is the first one rejected.
pub open spec fn first_rejected(req: BuildRequest, i: int) -> bool {
    &&& 0 <= i < req.files.len()
    &&& input_role(req, i) is Err
    &&& forall|j: int| 0 <= j < i ==> (#[trigger] input_role(req, j)) is Ok
}

/// The error that planning reports: the first rejected input, or else the
/// first object beyond the slot namespace.
pub open spec fn plan_error(req: BuildRequest, e: BuildError) -> bool {
    ||| exists|i: int|
        #[trigger] first_rejected(req, i) && rejection_error(
            input_role(req, i)->Err_0,
            input_path(req, i),
            e,
        )
    ||| all_accepted(req) && exists|i: int|
        0 <= i < req.files.len() && #[trigger] object_marks(req)(i) && count_marked(
            object_marks(req),
            i,
        ) == SLOT_COUNT && (e matches BuildError::TooManyObjects { file } && file@ == input_path(
            req,
            i,
        ))
}

/// The names and flags of the plan.
pub open spec fn names_planned(req: BuildRequest, p: BuildPlan) -> bool {
    &&& p.output_file@ == with_extension_of(
        output_stem(req),
        if req.stop_at_object {
            "obj"@
        } else {
            "exe"@
        },
    )
    &&& p.listing_file@ == with_extension_of(output_stem(req), "lst"@)
    &&& p.script_file@ == with_extension_of(output_stem(req), "dub"@)
    &&& p.stop_at_object == req.stop_at_object
    &&& p.save_temps == req.save_temps
    &&& p.entry_main == is_suffix(lowercase_of(req.files@[0]@), lowercase_of(".bemsh"@))
}

/// The first `n` planned inputs, with their roles and slots.
pub open spec fn inputs_prefix(req: BuildRequest, n: int, inputs: Seq<PlannedInput>) -> bool {
    &&& inputs.len() == n
    &&& forall|i: int|
        0 <= i < n ==> {
            &&& (#[trigger] inputs[i]).path@ == input_path(req, i)
            &&& input_role(req, i) == Ok::<Role, Rejection>(inputs[i].role)
            &&& inputs[i].slot == if inputs[i].role == Role::Object {
                Some(slot_of(req, i) as u8)
            } else {
                None
            }
        }
}

/// The inputs of the plan, in input order, with their roles and slots.
pub open spec fn inputs_planned(req: BuildRequest, p: BuildPlan) -> bool {
    inputs_prefix(req, req.files.len() as int, p.inputs@)
}

/// The translations of the `.pas` files among the first `n` inputs.
pub open spec fn translations_prefix(req: BuildRequest, n: int, translations: Seq<Translation>) -> bool {
    &&& translations.len() == count_marked(translation_marks(req), n)
    &&& forall|i: int|
        0 <= i < n && #[trigger] is_translated(req.files@[i]@) ==> {
            let t = translations[count_marked(translation_marks(req), i) as int];
            t.source@ == req.files@[i]@ && t.target@ == input_path(req, i)
        }
}

/// One translation for each `.pas` input, in input order.
pub open spec fn translations_planned(req: BuildRequest, p: BuildPlan) -> bool {
    translations_prefix(req, req.files.len() as int, p.translations@)
}

/// The slot bindings of the objects among the first `n` inputs.
pub open spec fn slots_prefix(req: BuildRequest, n: int, slots: Seq<SlotBinding>) -> bool {
    &&& slots.len() == count_marked(object_marks(req), n)
    &&& forall|k: int| 0 <= k < slots.len() ==> (#[trigger] slots[k]).slot == FIRST_SLOT + k
    &&& forall|i: int|
        0 <= i < n && #[trigger] object_marks(req)(i) ==> {
            let b = slots[count_marked(object_marks(req), i) as int];
            &&& b.source@ == input_path(req, i)
            &&& b.slot == slot_of(req, i)
            &&& b.staging@ == staging_name(slot_of(req, i))
        }
}

/// One slot binding for each object, in input order.
pub open spec fn slots_planned(req: BuildRequest, p: BuildPlan) -> bool {
    slots_prefix(req, req.files.len() as int, p.slots@)
}

/// The views of a sequence of strings.
pub open spec fn string_views(s: Seq<String>) -> Seq<Seq<char>> {
    s.map_values(|t: String| t@)
}

/// The temporaries: the processor's result file, the script, the
/// translator's outputs and the staging files.
pub open spec fn temporaries_planned(p: BuildPlan) -> bool {
    string_views(p.temporaries@) == seq!["output.bin"@, p.script_file@] + p.translations@.map_values(
        |t: Translation| t.target@,
    ) + p.slots@.map_values(|b: SlotBinding| b.staging@)
}

/// `p` is the plan of `req`.
pub open spec fn plan_of(req: BuildRequest, p: BuildPlan) -> bool {
    &&& names_planned(req, p)
    &&& inputs_planned(req, p)
    &&& translations_planned(req, p)
    &&& slots_planned(req, p)
    &&& temporaries_planned(p)
}

/// Every object has a slot of the namespace, and so has every binding.
pub open spec fn slots_within(inputs: Seq<PlannedInput>, slots: Seq<SlotBinding>) -> bool {
    &&& forall|i: int|
        0 <= i < inputs.len() && (#[trigger] inputs[i]).role == Role::Object ==> (inputs[i].slot matches Some(
            s,
        ) && FIRST_SLOT <= s < SLOT_END)
    &&& forall|k: int| 0 <= k < slots.len() ==> FIRST_SLOT <= (#[trigger] slots[k]).slot < SLOT_END
}

impl BuildPlan {
    /// Every object has a slot of the namespace, and so has every binding.
    pub open spec fn slots_in_range(&self) -> bool {
        slots_within(self.inputs@, self.slots@)
    }
}

fn rejection_to_error(why: Rejection, path: String) -> (e: BuildError)
    ensures
        rejection_error(why, path@, e),
{
    match why {
        Rejection::NoExtension => BuildError::NoExtension { file: path },
        Rejection::Executable => BuildError::ExecutableInput { file: path },
        Rejection::Unknown => BuildError::UnknownExtension { file: path },
    }
}


/// The paths and roles of the first `n` inputs, and their translations.
pub open spec fn classified_prefix(
    req: BuildRequest,
    n: int,
    paths: Seq<String>,
    roles: Seq<Role>,
    translations: Seq<Translation>,
) -> bool {
    &&& paths.len() == n
    &&& roles.len() == n
    &&& forall|j: int|
        #![trigger paths[j]]
        #![trigger input_role(req, j)]
        0 <= j < n ==> paths[j]@ == input_path(req, j) && input_role(req, j) == Ok::<
            Role,
            Rejection,
        >(roles[j])
    &&& translations_prefix(req, n, translations)
}

/// First pass: the path and role of each input, and the translations that
/// produce the intermediate files; fails on the first rejected input.
fn classify_inputs(req: &BuildRequest) -> (r: Result<
    (Vec<String>, Vec<Role>, Vec<Translation>),
    BuildError,
>)
    ensures
        match r {
            Ok((paths, roles, translations)) => all_accepted(*req) && classified_prefix(
                *req,
                req.files.len() as int,
                paths@,
                roles@,
                translations@,
            ),
            Err(e) => !all_recognized(*req) && exists|i: int|
                #[trigger] first_rejected(*req, i) && rejection_error(
                    input_role(*req, i)->Err_0,
                    input_path(*req, i),
                    e,
                ),
        },
{
    let n = req.files.len();
    let mut paths: Vec<String> = Vec::new();
    let mut roles: Vec<Role> = Vec::new();
    let mut translations: Vec<Translation> = Vec::new();
    let mut i: usize = 0;
    while i < n
        invariant
            n == req.files.len(),
            i <= n,
            classified_prefix(*req, i as int, paths@, roles@, translations@),
        decreases n - i,
    {
        proof {
            reveal_strlit("std");
        }
        let f = &req.files[i];
        let ghost old_translations = translations@;
        let path = if has_extension(f.as_str(), ".pas") {
            let target = path_with_extension(f.as_str(), "std");
            translations.push(Translation { source: f.clone(), target: target.clone() });
            target
        } else {
            f.clone()
        };
        assert(path@ == input_path(*req, i as int));
        match classify_path(path.as_str()) {
            Ok(role) => {
                paths.push(path);
                roles.push(role);
            },
            Err(why) => {
                let e = rejection_to_error(why, path);
                assert(first_rejected(*req, i as int));
                assert(!recognized(req.files@[i as int]@));
                return Err(e);
            },
        }
        proof {
            let marks = translation_marks(*req);
            assert(count_marked(marks, i + 1) == count_marked(marks, i as int) + if marks(
                i as int,
            ) {
                1nat
            } else {
                0nat
            });
            assert forall|j: int|
                0 <= j < i + 1 && #[trigger] is_translated(req.files@[j]@) implies {
                let t = translations@[count_marked(marks, j) as int];
                t.source@ == req.files@[j]@ && t.target@ == input_path(*req, j)
            } by {
                if j < i {
                    lemma_count_monotonic(marks, j, i as int);
                    assert(translations@[count_marked(marks, j) as int]
                        == old_translations[count_marked(marks, j) as int]);
                }
            }
        }
        i += 1;
    }
    Ok((paths, roles, translations))
}

/// Second pass: a slot for each object, in input order; fails on the first
/// object beyond the slot namespace.
fn allocate_slots(req: &BuildRequest, paths: &Vec<String>, roles: &Vec<Role>) -> (r: Result<
    (Vec<PlannedInput>, Vec<SlotBinding>),
    BuildError,
>)
    requires
        all_accepted(*req),
        paths.len() == req.files.len(),
        roles.len() == req.files.len(),
        forall|j: int|
            #![trigger paths@[j]]
            #![trigger input_role(*req, j)]
            0 <= j < req.files.len() ==> paths@[j]@ == input_path(*req, j) && input_role(*req, j)
                == Ok::<Role, Rejection>(roles@[j]),
    ensures
        match r {
            Ok((inputs, slots)) => {
                &&& object_count(*req) <= SLOT_COUNT
                &&& inputs_prefix(*req, req.files.len() as int, inputs@)
                &&& slots_prefix(*req, req.files.len() as int, slots@)
                &&& slots_within(inputs@, slots@)
            },
            Err(e) => object_count(*req) > SLOT_COUNT && exists|i: int|
                0 <= i < req.files.len() && #[trigger] object_marks(*req)(i) && count_marked(
                    object_marks(*req),
                    i,
                ) == SLOT_COUNT && (e matches BuildError::TooManyObjects { file } && file@
                    == input_path(*req, i)),
        },
{
    let n = paths.len();
    let ghost marks = object_marks(*req);
    let mut inputs: Vec<PlannedInput> = Vec::new();
    let mut slots: Vec<SlotBinding> = Vec::new();
    let mut next: u8 = FIRST_SLOT;
    let mut i: usize = 0;
    while i < n
        invariant
            n == req.files.len(),
            n == paths.len(),
            n == roles.len(),
            i <= n,
            marks == object_marks(*req),
            forall|j: int|
                #![trigger paths@[j]]
                #![trigger input_role(*req, j)]
                0 <= j < n ==> paths@[j]@ == input_path(*req, j) && input_role(*req, j) == Ok::<
                    Role,
                    Rejection,
                >(roles@[j]),
            inputs_prefix(*req, i as int, inputs@),
            slots_prefix(*req, i as int, slots@),
            forall|j: int|
                0 <= j < i && (#[trigger] inputs@[j]).role == Role::Object ==> (inputs@[j].slot matches Some(
                    s,
                ) && FIRST_SLOT <= s < next),
            forall|k: int| 0 <= k < slots.len() ==> FIRST_SLOT <= (#[trigger] slots@[k]).slot < next,
            next as int == slot_of(*req, i as int),
            next <= SLOT_END,
        decreases n - i,
    {
        let role = roles[i];
        assert(marks(i as int) == (role == Role::Object));
        assert(count_marked(marks, i + 1) == count_marked(marks, i as int) + if marks(i as int) {
            1nat
        } else {
            0nat
        });
        let ghost old_slots = slots@;
        let ghost old_inputs = inputs@;
        if role == Role::Object {
            if next == SLOT_END {
                proof {
                    lemma_count_monotonic(marks, i + 1, n as int);
                }
                return Err(BuildError::TooManyObjects { file: paths[i].clone() });
            }
            let staging = staging_file_name(next);
            slots.push(SlotBinding { source: paths[i].clone(), slot: next, staging });
            inputs.push(PlannedInput { path: paths[i].clone(), role, slot: Some(next) });
            next = next + 1;
        } else {
            inputs.push(PlannedInput { path: paths[i].clone(), role, slot: None });
        }
        proof {
            assert forall|j: int| 0 <= j < i + 1 && #[trigger] marks(j) implies {
                let b = slots@[count_marked(marks, j) as int];
                &&& b.source@ == input_path(*req, j)
                &&& b.slot == slot_of(*req, j)
                &&& b.staging@ == staging_name(slot_of(*req, j))
            } by {
                if j < i {
                    lemma_count_monotonic(marks, j, i as int);
                    assert(slots@[count_marked(marks, j) as int] == old_slots[count_marked(
                        marks,
                        j,
                    ) as int]);
                }
            }
            assert forall|j: int| 0 <= j < i + 1 implies {
                &&& (#[trigger] inputs@[j]).path@ == input_path(*req, j)
                &&& input_role(*req, j) == Ok::<Role, Rejection>(inputs@[j].role)
                &&& inputs@[j].slot == if inputs@[j].role == Role::Object {
                    Some(slot_of(*req, j) as u8)
                } else {
                    None
                }
            } by {
                if j < i {
                    assert(inputs@[j] == old_inputs[j]);
                }
            }
        }
        i += 1;
    }
    Ok((inputs, slots))
}

/// Plans a build: the names of the output, listing and script (each the
/// output stem with the extension of its kind), the translations, the role
/// of each input, the slot of each object and the temporaries. Fails on the
/// first input with no known role, else on the first object that finds no
/// slot; nothing is run or written either way.
pub fn plan_build(req: &BuildRequest) -> (r: Result<BuildPlan, BuildError>)
    requires
        req.files.len() > 0,
    ensures
        r is Ok <==> plannable(*req),
        match r {
            Ok(p) => plan_of(*req, p) && p.slots_in_range(),
            Err(e) => plan_error(*req, e),
        },
        all_recognized(*req) ==> all_accepted(*req) && (r is Ok || r->Err_0 is TooManyObjects),
{
    proof {
        reveal_strlit("obj");
        reveal_strlit("exe");
        reveal_strlit("lst");
        reveal_strlit("dub");
    }
    let (paths, roles, translations) = match classify_inputs(req) {
        Ok(c) => c,
        Err(e) => {
            return Err(e);
        },
    };
    let (inputs, slots) = match allocate_slots(req, &paths, &roles) {
        Ok(a) => a,
        Err(e) => {
            return Err(e);
        },
    };
    let first = req.files[0].as_str();
    let stem: &str = match &req.output_file {
        Some(o) => o.as_str(),
        None => first,
    };
    let output_file = path_with_extension(
        stem,
        if req.stop_at_object {
            "obj"
        } else {
            "exe"
        },
    );
    let listing_file = path_with_extension(stem, "lst");
    let script_file = path_with_extension(stem, "dub");
    let entry_main = has_extension(first, ".bemsh");

    let mut temporaries: Vec<String> = Vec::new();
    temporaries.push(String::from_str("output.bin"));
    temporaries.push(script_file.clone());
    let ghost head = seq!["output.bin"@, script_file@];
    let ghost targets = translations@.map_values(|t: Translation| t.target@);
    let ghost stagings = slots@.map_values(|b: SlotBinding| b.staging@);
    assert(string_views(temporaries@) =~= head);
    let mut k: usize = 0;
    while k < translations.len()
        invariant
            k <= translations.len(),
            targets == translations@.map_values(|t: Translation| t.target@),
            string_views(temporaries@) =~= head + targets.take(k as int),
        decreases translations.len() - k,
    {
        let ghost before = temporaries@;
        temporaries.push(translations[k].target.clone());
        assert(string_views(temporaries@) =~= string_views(before).push(targets[k as int]));
        assert(targets.take(k + 1) =~= targets.take(k as int).push(targets[k as int]));
        assert(string_views(temporaries@) =~= head + targets.take(k + 1));
        k += 1;
    }
    assert(targets.take(k as int) =~= targets);
    let mut k: usize = 0;
    while k < slots.len()
        invariant
            k <= slots.len(),
            stagings == slots@.map_values(|b: SlotBinding| b.staging@),
            string_views(temporaries@) =~= head + targets + stagings.take(k as int),
        decreases slots.len() - k,
    {
        let ghost before = temporaries@;
        temporaries.push(slots[k].staging.clone());
        assert(string_views(temporaries@) =~= string_views(before).push(stagings[k as int]));
        assert(stagings.take(k + 1) =~= stagings.take(k as int).push(stagings[k as int]));
        assert(string_views(temporaries@) =~= head + targets + stagings.take(k + 1));
        k += 1;
    }
    assert(stagings.take(k as int) =~= stagings);
    let p = BuildPlan {
        output_file,
        listing_file,
        script_file,
        stop_at_object: req.stop_at_object,
        save_temps: req.save_temps,
        entry_main,
        translations,
        inputs,
        slots,
        temporaries,
    };
    Ok(p)
}

} // verus!
