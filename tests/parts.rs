//! The parts of the driver on concrete values.

use besmc::artifact::{executable_mode, render_artifact};
use besmc::classify::{classify_path, role_of_extension, Rejection, Role};
use besmc::listing::{catalogue_patterns, failure_signatures, scan_lines, scan_listing, Finding};
use besmc::path::has_extension;
use besmc::plan::{plan_build, BuildError, BuildRequest};
use besmc::script::render_script;
use besmc::session::{Build, Event, Step};
use besmc::slots::{octal, slot_binding_line, slot_reference_line, staging_file_name};
use besmc::text::{ends_with, same_text};

fn request(files: &[&str], output: Option<&str>, stop_at_object: bool) -> BuildRequest {
    BuildRequest {
        files: files.iter().map(|f| f.to_string()).collect(),
        output_file: output.map(|o| o.to_string()),
        stop_at_object,
        save_temps: false,
    }
}

fn lines(v: &[&str]) -> Vec<String> {
    v.iter().map(|l| l.to_string()).collect()
}

#[test]
fn extension_check_ignores_case() {
    assert!(has_extension("PROG.PAS", ".pas"));
    assert!(has_extension("prog.pas", ".PAS"));
    assert!(has_extension("X.Bemsh", ".bemsh"));
    assert!(!has_extension("prog.pascal", ".pas"));
    assert!(!has_extension("pas", ".pas"));
}

#[test]
fn text_helpers() {
    assert!(same_text("ftn", "ftn"));
    assert!(!same_text("ftn", "Ftn"));
    assert!(!same_text("ftn", "ftnx"));
    assert!(ends_with("hello.ftn", ".ftn"));
    assert!(!ends_with("ftn", ".ftn"));
    assert!(ends_with("", ""));
}

#[test]
fn roles_by_extension() {
    let r = |e: &str| role_of_extension(&Some(e.to_string()));
    assert_eq!(r("ftn"), Ok(Role::Ftn));
    assert_eq!(r("fortran"), Ok(Role::Fortran));
    assert_eq!(r("forex"), Ok(Role::Forex));
    assert_eq!(r("algol"), Ok(Role::Algol));
    assert_eq!(r("pascal"), Ok(Role::Pascal));
    assert_eq!(r("assem"), Ok(Role::Assem));
    assert_eq!(r("madlen"), Ok(Role::Madlen));
    assert_eq!(r("bemsh"), Ok(Role::Bemsh));
    assert_eq!(r("obj"), Ok(Role::Object));
    assert_eq!(r("std"), Ok(Role::Intermediate));
    assert_eq!(r("exe"), Err(Rejection::Executable));
    assert_eq!(r("FTN"), Err(Rejection::Unknown));
    assert_eq!(r("pas"), Err(Rejection::Unknown));
    assert_eq!(role_of_extension(&None), Err(Rejection::NoExtension));
}

#[test]
fn roles_by_path() {
    assert_eq!(classify_path("dir.d/main.ftn"), Ok(Role::Ftn));
    assert_eq!(classify_path("lib.tar.obj"), Ok(Role::Object));
    assert_eq!(classify_path("Makefile"), Err(Rejection::NoExtension));
    assert_eq!(classify_path("dir.ftn/main"), Err(Rejection::NoExtension));
    assert_eq!(classify_path(".ftn"), Err(Rejection::NoExtension));
    assert_eq!(classify_path("a.out.exe"), Err(Rejection::Executable));
    assert_eq!(classify_path("notes.txt"), Err(Rejection::Unknown));
}

#[test]
fn octal_slot_texts() {
    assert_eq!(octal(0o40), "40");
    assert_eq!(octal(0o57), "57");
    assert_eq!(staging_file_name(0o40), "pers40.bin");
    assert_eq!(staging_file_name(0o53), "pers53.bin");
    assert_eq!(slot_binding_line(0o57), "*file:pers57,57\n");
    assert_eq!(slot_reference_line(0o41), "*call perso:41,cont\n");
}

#[test]
fn plan_names_follow_output_stem() {
    let p = plan_build(&request(&["src/a.ftn", "b.assem"], Some("out/prog.bin"), false)).unwrap();
    assert_eq!(p.output_file, "out/prog.exe");
    assert_eq!(p.listing_file, "out/prog.lst");
    assert_eq!(p.script_file, "out/prog.dub");
    let p = plan_build(&request(&["src/a.ftn"], None, true)).unwrap();
    assert_eq!(p.output_file, "src/a.obj");
    assert_eq!(p.listing_file, "src/a.lst");
    assert_eq!(p.script_file, "src/a.dub");
    assert_eq!(p.temporaries, vec!["output.bin".to_string(), "src/a.dub".to_string()]);
}

#[test]
fn pascal_sources_are_translated() {
    let p = plan_build(&request(&["main.PAS", "util.ftn"], Some("prog"), false)).unwrap();
    assert_eq!(p.translations.len(), 1);
    assert_eq!(p.translations[0].source, "main.PAS");
    assert_eq!(p.translations[0].target, "main.std");
    assert_eq!(p.inputs[0].path, "main.std");
    assert_eq!(p.inputs[0].role, Role::Intermediate);
    assert_eq!(
        p.temporaries,
        vec!["output.bin".to_string(), "prog.dub".to_string(), "main.std".to_string()]
    );
    let script = render_script(&p, &vec![b"STD\n".to_vec(), b"FTN\n".to_vec()]);
    // Sources go by group: Fortran-GDR before the translator's output.
    assert_eq!(
        String::from_utf8(script).unwrap(),
        "*name compile\n*disc:1/local\n*file:output,60,w\n*call setftn:one,long\n\
         *ftn\nFTN\nSTD\n*library:22\n*call overlay\nprogram\n*end record\n*end file\n"
    );
}

#[test]
fn script_groups_by_role_in_declared_order() {
    let p = plan_build(&request(
        &["m.bemsh", "x.obj", "a.algol", "f.ftn", "b.algol", "y.obj"],
        Some("job"),
        true,
    ))
    .unwrap();
    let sources = vec![
        b"B\n".to_vec(),
        Vec::new(),
        b"A1\n".to_vec(),
        b"F\n".to_vec(),
        b"A2\n".to_vec(),
        Vec::new(),
    ];
    let script = String::from_utf8(render_script(&p, &sources)).unwrap();
    assert_eq!(
        script,
        "*name compile\n*disc:1/local\n*file:output,60,w\n\
         *file:pers40,40\n*file:pers41,41\n*call setftn:one,long\n\
         *ftn\nF\n*algol\nA1\n*algol\nA2\n*bemsh\nB\n\
         *call perso:40,cont\n*call perso:41,cont\n\
         *call to perso: 60\n*end file\n"
    );
}

// Classification is a function of the list: planning it twice gives the
// same inputs, roles and slots in the same order.
#[test]
fn classification_is_deterministic() {
    let req = request(&["a.ftn", "b.obj", "c.forex", "d.obj", "e.pas"], Some("o"), false);
    let p1 = plan_build(&req).unwrap();
    let p2 = plan_build(&req).unwrap();
    assert_eq!(p1.inputs.len(), 5);
    for i in 0..5 {
        assert_eq!(p1.inputs[i].path, p2.inputs[i].path);
        assert_eq!(p1.inputs[i].role, p2.inputs[i].role);
        assert_eq!(p1.inputs[i].slot, p2.inputs[i].slot);
    }
    let roles: Vec<Role> = p1.inputs.iter().map(|i| i.role).collect();
    assert_eq!(
        roles,
        vec![Role::Ftn, Role::Object, Role::Forex, Role::Object, Role::Intermediate]
    );
    assert_eq!(p1.inputs[1].slot, Some(0o40));
    assert_eq!(p1.inputs[3].slot, Some(0o41));
    assert_eq!(p1.inputs[0].slot, None);
}

// An unknown extension, a missing one or an executable stops the build
// before any step.
#[test]
fn rejected_inputs_stop_before_any_step() {
    let cases: [(&str, fn(&BuildError) -> bool); 3] = [
        ("notes.txt", |e| matches!(e, BuildError::UnknownExtension { file } if file == "notes.txt")),
        ("Makefile", |e| matches!(e, BuildError::NoExtension { file } if file == "Makefile")),
        ("old.exe", |e| matches!(e, BuildError::ExecutableInput { file } if file == "old.exe")),
    ];
    for (bad, expected) in cases {
        let req = request(&["a.ftn", bad, "c.obj"], None, false);
        match Build::start(&req) {
            Err(e) => assert!(expected(&e), "{:?}", e),
            Ok(_) => panic!("build started with {}", bad),
        }
    }
    // The first rejected input is reported.
    let req = request(&["a.ftn", "b.txt", "c.exe"], None, false);
    assert!(matches!(plan_build(&req), Err(BuildError::UnknownExtension { file }) if file == "b.txt"));
    // A rejection wins over a shortage of slots.
    let mut files: Vec<String> = (0..20).map(|i| format!("o{}.obj", i)).collect();
    files.push("z.exe".to_string());
    let refs: Vec<&str> = files.iter().map(|s| s.as_str()).collect();
    assert!(matches!(plan_build(&request(&refs, None, false)), Err(BuildError::ExecutableInput { .. })));
}

#[test]
fn sixteen_objects_fill_the_slots_in_order() {
    let files: Vec<String> = (0..16).map(|i| format!("lib{}.obj", i)).collect();
    let refs: Vec<&str> = files.iter().map(|s| s.as_str()).collect();
    let p = plan_build(&request(&refs, Some("all"), true)).unwrap();
    assert_eq!(p.slots.len(), 16);
    for (k, b) in p.slots.iter().enumerate() {
        assert_eq!(b.slot as usize, 0o40 + k);
        assert_eq!(b.source, files[k]);
    }
    assert_eq!(p.slots[0].staging, "pers40.bin");
    assert_eq!(p.slots[15].staging, "pers57.bin");
    assert_eq!(p.temporaries.len(), 2 + 16);
    assert_eq!(p.temporaries[17], "pers57.bin");
}

#[test]
fn seventeenth_object_finds_no_slot() {
    let mut files: Vec<String> = vec!["main.ftn".to_string()];
    files.extend((0..17).map(|i| format!("lib{}.obj", i)));
    let refs: Vec<&str> = files.iter().map(|s| s.as_str()).collect();
    match Build::start(&request(&refs, None, false)) {
        Err(BuildError::TooManyObjects { file }) => assert_eq!(file, "lib16.obj"),
        _ => panic!("seventeen objects were accepted"),
    }
}

// The entry symbol depends on the first input only.
#[test]
fn entry_symbol_follows_first_input() {
    let footer = |files: &[&str]| {
        let p = plan_build(&request(files, Some("p"), false)).unwrap();
        let sources = vec![Vec::new(); files.len()];
        String::from_utf8(render_script(&p, &sources)).unwrap()
    };
    assert!(footer(&["m.bemsh", "f.ftn"]).ends_with("*call overlay\nmain\n*end record\n*end file\n"));
    assert!(footer(&["f.ftn", "m.bemsh"]).ends_with("*call overlay\nprogram\n*end record\n*end file\n"));
    assert!(footer(&["a.algol"]).ends_with("*call overlay\nprogram\n*end record\n*end file\n"));
}

#[test]
fn scan_reports_first_signature_per_line() {
    let found = scan_listing(&lines(&[
        "OTCYTCTBYET ИMЯ ПPOГPAMMЫ",
        "all is well",
        " ******136  TPEБYETCЯ  PROGRAM",
        "ERROR 056 IN 00002 UNDEFINED LABEL >123<",
        "  ERROR 12 indented twice",
        "ЗHAЧEH. B       HE OПPEДEЛEHO",
        " ДЛИHHЫЙ AДPEC B KOMAHДE",
    ]))
    .unwrap();
    assert_eq!(
        found,
        vec![
            Finding { line: 0, signature: 2 },
            Finding { line: 2, signature: 10 },
            Finding { line: 3, signature: 12 },
            Finding { line: 5, signature: 6 },
            Finding { line: 6, signature: 16 },
        ]
    );
}

#[test]
fn clean_listing_has_no_findings() {
    let found = scan_listing(&lines(&[
        " ДЛИHA LIBRARY 0001 ЗOH.",
        " ДЛИHA БИБЛИOTEKИ  001 17",
        "ERRORS: 0",
        "",
    ]))
    .unwrap();
    assert!(found.is_empty());
    assert!(scan_listing(&Vec::new()).unwrap().is_empty());
}

#[test]
fn catalogue_compiles_in_order() {
    let sigs = failure_signatures().unwrap();
    let texts = catalogue_patterns();
    assert_eq!(sigs.len(), 17);
    for (s, t) in sigs.iter().zip(texts.iter()) {
        assert_eq!(s.pattern_text(), *t);
    }
    assert!(sigs[0].matches("БЫЛИ OШИБKИ ПPИ BBOДE ИЛИ TPAHCЛЯЦИИ !!!"));
    assert!(!sigs[12].matches(" ERROR 5"));
    assert!(sigs[13].matches(" ERROR 5"));
    assert!(scan_lines(&sigs, &lines(&["HET ′EOP′ !"])) == vec![Finding { line: 0, signature: 1 }]);
}

#[test]
fn execute_bits_are_added() {
    assert_eq!(executable_mode(0o100644), 0o100755);
    assert_eq!(executable_mode(0o600), 0o711);
    assert_eq!(executable_mode(0o755), 0o755);
    assert_eq!(executable_mode(0o4000), 0o4111);
}

#[test]
fn artifacts_by_mode() {
    let result = vec![1u8, 2, 3];
    assert_eq!(render_artifact(true, &result), result);
    let mut exe = b"#!/usr/bin/env dubna\n".to_vec();
    exe.extend_from_slice(&result);
    assert_eq!(render_artifact(false, &result), exe);
    assert_eq!(render_artifact(true, &Vec::new()), Vec::<u8>::new());
}

fn finish(mut build: Build, events: Vec<Event>) -> Build {
    for e in events {
        build = build.advance(e);
    }
    build
}

// A listing that carries a failure signature fails the build, even in
// object-only mode with a clean exit.
#[test]
fn signature_in_listing_fails_clean_exit() {
    let mut b = Build::start(&request(&["bad.ftn"], Some("lib.obj"), true)).unwrap();
    b = finish(b, vec![Event::Completed, Event::Exited(Some(0))]);
    assert_eq!(b.step(), Step::ScanListing);
    let found = scan_listing(&lines(&["******HEOПИCAHHЫЙ ИДEHTИФИKATOP           FOOBAR"])).unwrap();
    b = b.advance(Event::Scanned(found));
    assert_eq!(b.step(), Step::RemoveTemporaries);
    b = b.advance(Event::Completed);
    assert_eq!(b.step(), Step::Finished);
    assert!(matches!(b.outcome(), Err(BuildError::Diagnostics { listing }) if listing == "lib.lst"));
}

#[test]
fn processor_failure_still_scans_listing() {
    let mut b = Build::start(&request(&["a.ftn"], None, false)).unwrap();
    b = finish(b, vec![Event::Completed, Event::Exited(Some(2))]);
    assert_eq!(b.step(), Step::ScanListing);
    b = b.advance(Event::Scanned(Vec::new()));
    assert_eq!(b.step(), Step::RemoveTemporaries);
    b = b.advance(Event::Completed);
    assert!(matches!(b.outcome(), Err(BuildError::Processor { status: Some(2) })));
    let mut b = Build::start(&request(&["a.ftn"], None, false)).unwrap();
    b = finish(b, vec![Event::Completed, Event::Exited(None), Event::Scanned(Vec::new())]);
    assert!(matches!(b.outcome(), Err(BuildError::Processor { status: None })));
}

#[test]
fn translator_failure_stops_build() {
    let mut b = Build::start(&request(&["a.pas", "b.pas"], None, false)).unwrap();
    assert_eq!(b.step(), Step::Translate(0));
    b = b.advance(Event::Exited(Some(0)));
    assert_eq!(b.step(), Step::Translate(1));
    b = b.advance(Event::Exited(Some(1)));
    assert_eq!(b.step(), Step::RemoveTemporaries);
    b = b.advance(Event::Completed);
    assert!(matches!(b.outcome(), Err(BuildError::Translator { file, status: Some(1) }) if file == "b.pas"));
}

#[test]
fn io_failure_stops_build_and_keeps_temporaries_when_asked() {
    let mut req = request(&["a.ftn"], None, false);
    req.save_temps = true;
    let mut b = Build::start(&req).unwrap();
    assert_eq!(b.step(), Step::WriteScript);
    b = b.advance(Event::Failed(BuildError::Io { path: "a.dub".to_string(), reason: "denied".to_string() }));
    assert_eq!(b.step(), Step::Finished);
    assert!(matches!(b.outcome(), Err(BuildError::Io { path, .. }) if path == "a.dub"));
}

#[test]
fn unexpected_event_changes_nothing() {
    let mut b = Build::start(&request(&["a.obj"], None, false)).unwrap();
    assert_eq!(b.step(), Step::StageObject(0));
    b = b.advance(Event::Exited(Some(0)));
    assert_eq!(b.step(), Step::StageObject(0));
    b = b.advance(Event::Completed);
    assert_eq!(b.step(), Step::WriteScript);
}

#[test]
fn steps_of_a_clean_build() {
    let mut b = Build::start(&request(&["a.pas", "x.obj", "y.obj"], None, false)).unwrap();
    let mut steps = Vec::new();
    loop {
        let s = b.step();
        steps.push(s);
        let e = match s {
            Step::Translate(_) | Step::RunProcessor => Event::Exited(Some(0)),
            Step::ScanListing => Event::Scanned(Vec::new()),
            Step::Finished => break,
            _ => Event::Completed,
        };
        b = b.advance(e);
    }
    assert_eq!(
        steps,
        vec![
            Step::Translate(0),
            Step::StageObject(0),
            Step::StageObject(1),
            Step::WriteScript,
            Step::RunProcessor,
            Step::ScanListing,
            Step::WriteArtifact,
            Step::RemoveTemporaries,
            Step::Finished,
        ]
    );
    assert!(b.outcome().is_ok());
}
