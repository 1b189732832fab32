//! Whole builds of one source file, played with a processor that succeeds.

use besmc::artifact::executable_mode;
use besmc::listing::scan_listing;
use besmc::plan::BuildRequest;
use besmc::session::{Build, Event, Step};

struct Outcome {
    ok: bool,
    script: Vec<u8>,
    artifact: Option<Vec<u8>>,
    output_file: String,
    removed: Vec<String>,
    findings: usize,
}

fn build_once(stop_at_object: bool, result: &[u8]) -> Outcome {
    let req = BuildRequest {
        files: vec!["hello.ftn".to_string()],
        output_file: Some("target/hello".to_string()),
        stop_at_object,
        save_temps: false,
    };
    let listing = vec![" ДЛИHA БИБЛИOTEKИ  002 30".to_string()];
    let mut b = Build::start(&req).unwrap();
    let mut out = Outcome {
        ok: false,
        script: Vec::new(),
        artifact: None,
        output_file: b.plan().output_file.clone(),
        removed: Vec::new(),
        findings: 0,
    };
    loop {
        let e = match b.step() {
            Step::WriteScript => {
                out.script = b.script(&vec![b"      program hello\n      end\n".to_vec()]);
                Event::Completed
            }
            Step::RunProcessor => Event::Exited(Some(0)),
            Step::ScanListing => {
                let found = scan_listing(&listing).unwrap();
                out.findings = found.len();
                Event::Scanned(found)
            }
            Step::WriteArtifact => {
                out.artifact = Some(b.artifact(&result.to_vec()));
                Event::Completed
            }
            Step::RemoveTemporaries => {
                out.removed = b.plan().temporaries.clone();
                Event::Completed
            }
            Step::Finished => break,
            _ => Event::Completed,
        };
        b = b.advance(e);
    }
    out.ok = b.outcome().is_ok();
    out
}

#[test]
fn executable_build_of_one_source() {
    let run = build_once(false, &[7, 8, 9]);
    assert!(run.ok);
    assert_eq!(run.findings, 0);
    assert_eq!(run.output_file, "target/hello.exe");
    let artifact = run.artifact.unwrap();
    assert!(artifact.starts_with(b"#!/usr/bin/env dubna\n"));
    assert!(artifact.ends_with(&[7, 8, 9]));
    assert_eq!(executable_mode(0o644) & 0o111, 0o111);
    assert_eq!(run.removed, vec!["output.bin".to_string(), "target/hello.dub".to_string()]);
    assert_eq!(
        String::from_utf8(run.script).unwrap(),
        "*name compile\n*disc:1/local\n*file:output,60,w\n*call setftn:one,long\n\
         *ftn\n      program hello\n      end\n\
         *library:22\n*call overlay\nprogram\n*end record\n*end file\n"
    );
}

#[test]
fn object_build_of_one_source() {
    let run = build_once(true, &[7, 8, 9]);
    assert!(run.ok);
    assert_eq!(run.output_file, "target/hello.obj");
    assert_eq!(run.artifact.unwrap(), vec![7, 8, 9]);
    assert!(String::from_utf8(run.script).unwrap().ends_with("*ftn\n      program hello\n      end\n*call to perso: 60\n*end file\n"));
}

#[test]
fn same_build_twice_gives_same_bytes() {
    let a = build_once(false, &[1, 2, 3, 0xff]);
    let b = build_once(false, &[1, 2, 3, 0xff]);
    assert_eq!(a.script, b.script);
    assert_eq!(a.artifact, b.artifact);
    assert_eq!(a.output_file, b.output_file);
    let c = build_once(true, &[4, 5]);
    let d = build_once(true, &[4, 5]);
    assert_eq!(c.artifact, d.artifact);
}
