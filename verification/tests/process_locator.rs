use gmod_hook::locator::{game_root, Candidate, Gmod, ParentProbe};
use gmod_hook::platform::{Os, Platform, PointerWidth};

fn path(text: &str) -> Vec<Vec<u8>> {
    text.split('\\').map(|name| name.as_bytes().to_vec()).collect()
}

fn host(pid: u32) -> Candidate {
    Candidate {
        pid: Some(pid),
        exe_path: path("Program Files\\Steam\\steamapps\\common\\GarrysMod\\bin\\win64\\gmod.exe"),
        x86: Some(false),
        parent: ParentProbe::Named(b"steam.exe".to_vec()),
        has_game_dir: true,
        payload_present: true,
    }
}

#[test]
fn nothing_is_found_while_no_host_runs() {
    assert_eq!(Gmod::find(&vec![]), None);
}

#[test]
fn host_is_found_with_what_is_known_of_it() {
    let found = Gmod::find(&vec![host(4242)]).unwrap();
    assert_eq!(found, Gmod { candidate: 0, process_id: Some(4242), x86: false, root_depth: 5 });
    assert_eq!(found.pid(), Some(4242));
    assert_eq!(found.platform(), Platform { os: Os::Windows, width: PointerWidth::Bits64 });
}

#[test]
fn helper_started_by_the_host_is_rejected() {
    let mut helper = host(1);
    helper.parent = ParentProbe::Named(b"gmod.exe".to_vec());
    assert_eq!(Gmod::find(&vec![helper]), None);
}

#[test]
fn same_candidate_with_another_parent_is_accepted() {
    let mut helper = host(1);
    helper.parent = ParentProbe::Named(b"gmod.exe".to_vec());
    let mut launched = host(1);
    launched.parent = ParentProbe::Named(b"explorer.exe".to_vec());
    assert_eq!(Gmod::find(&vec![helper]), None);
    assert_eq!(Gmod::find(&vec![launched]).map(|gmod| gmod.candidate), Some(0));
    let mut orphan = host(1);
    orphan.parent = ParentProbe::NoParent;
    assert_eq!(Gmod::find(&vec![orphan]).map(|gmod| gmod.candidate), Some(0));
}

#[test]
fn parent_name_is_compared_letter_for_letter() {
    let mut candidate = host(1);
    candidate.parent = ParentProbe::Named(b"GMOD.EXE".to_vec());
    assert!(Gmod::find(&vec![candidate]).is_some());
    let mut candidate = host(1);
    candidate.parent = ParentProbe::Named(b"gmod.exe ".to_vec());
    assert!(Gmod::find(&vec![candidate]).is_some());
}

#[test]
fn candidate_whose_parent_is_unknown_is_rejected() {
    let mut candidate = host(1);
    candidate.parent = ParentProbe::Unknown;
    assert_eq!(Gmod::find(&vec![candidate]), None);
}

#[test]
fn first_candidate_that_qualifies_is_taken() {
    let mut helper = host(10);
    helper.parent = ParentProbe::Named(b"gmod.exe".to_vec());
    let mut bare = host(20);
    bare.has_game_dir = false;
    let found = Gmod::find(&vec![helper, bare, host(30), host(40)]).unwrap();
    assert_eq!(found.candidate, 2);
    assert_eq!(found.pid(), Some(30));
}

#[test]
fn candidate_without_its_files_is_rejected() {
    let mut candidate = host(1);
    candidate.has_game_dir = false;
    assert_eq!(Gmod::find(&vec![candidate]), None);
    let mut candidate = host(1);
    candidate.payload_present = false;
    assert_eq!(Gmod::find(&vec![candidate]), None);
}

#[test]
fn candidate_of_unknown_width_is_rejected() {
    let mut candidate = host(1);
    candidate.x86 = None;
    assert_eq!(Gmod::find(&vec![candidate]), None);
}

#[test]
fn narrow_host_is_found_in_its_own_directory() {
    let mut candidate = host(5);
    candidate.exe_path = path("Games\\GarrysMod\\gmod.exe");
    candidate.x86 = Some(true);
    candidate.pid = None;
    let found = Gmod::find(&vec![candidate]).unwrap();
    assert_eq!(found, Gmod { candidate: 0, process_id: None, x86: true, root_depth: 2 });
    assert_eq!(found.pid(), None);
    assert_eq!(found.platform(), Platform { os: Os::Windows, width: PointerWidth::Bits32 });
}

#[test]
fn game_root_lies_by_the_executable_or_above_win64() {
    assert_eq!(game_root(&path("GarrysMod\\bin\\win64\\gmod.exe")), Some(1));
    assert_eq!(game_root(&path("bin\\win64\\gmod.exe")), Some(0));
    assert_eq!(game_root(&path("win64\\gmod.exe")), None);
    assert_eq!(game_root(&path("GarrysMod\\gmod.exe")), Some(1));
    assert_eq!(game_root(&path("gmod.exe")), Some(0));
    assert_eq!(game_root(&path("GarrysMod\\bin\\WIN64\\gmod.exe")), Some(3));
    assert_eq!(game_root(&path("GarrysMod\\win64\\bin\\gmod.exe")), Some(3));
    assert_eq!(game_root(&Vec::new()), None);
}

#[test]
fn game_root_needs_an_executable_name() {
    assert_eq!(game_root(&path("GarrysMod\\gmod")), None);
    assert_eq!(game_root(&path("GarrysMod\\gmod.EXE")), None);
    assert_eq!(game_root(&path("GarrysMod\\gmod.exe.bak")), None);
    assert_eq!(game_root(&path("GarrysMod\\.exe")), None);
    assert_eq!(game_root(&path("GarrysMod\\exe")), None);
    assert_eq!(game_root(&path("GarrysMod\\a.exe")), Some(1));
    assert_eq!(game_root(&path("GarrysMod\\gmod.old.exe")), Some(1));
    assert_eq!(game_root(&path("GarrysMod\\")), None);
}
