use gmod_hook::process_utils::ProcessUtils;

const HEADER: &str = "\"Image Name\",\"PID\",\"Session Name\",\"Session#\",\"Mem Usage\"\r\n";

fn listing(lines: &[&str]) -> String {
    let mut text = String::from(HEADER);
    for line in lines {
        text.push_str(line);
        text.push_str("\r\n");
    }
    text
}

#[test]
fn pid_is_read_from_second_field() {
    let text = listing(&["\"gmod.exe\",\"4242\",\"Console\",\"1\",\"1,024 K\""]);
    assert_eq!(ProcessUtils::get_process_id("gmod.exe", &text), Some(4242));
}

#[test]
fn pid_of_first_matching_line_is_taken() {
    let text = listing(&[
        "\"steam.exe\",\"100\",\"Console\",\"1\",\"9 K\"",
        "\"gmod.exe\",\"200\",\"Console\",\"1\",\"9 K\"",
        "\"gmod.exe\",\"300\",\"Console\",\"1\",\"9 K\"",
    ]);
    assert_eq!(ProcessUtils::get_process_id("gmod.exe", &text), Some(200));
}

#[test]
fn header_line_is_skipped() {
    let text = "\"gmod.exe\",\"11\"\r\n\"gmod.exe\",\"22\"\r\n";
    assert_eq!(ProcessUtils::get_process_id("gmod.exe", text), Some(22));
    assert_eq!(ProcessUtils::get_process_id("gmod.exe", "\"gmod.exe\",\"11\"\r\n"), None);
    assert_eq!(ProcessUtils::get_process_id("gmod.exe", "\"gmod.exe\",\"11\""), None);
}

#[test]
fn empty_listing_gives_nothing() {
    assert_eq!(ProcessUtils::get_process_id("gmod.exe", ""), None);
    assert_eq!(ProcessUtils::get_process_id("gmod.exe", HEADER), None);
    assert_eq!(ProcessUtils::get_process_id("gmod.exe", "\n\n\n"), None);
}

#[test]
fn notice_that_no_task_runs_gives_nothing() {
    let text = "INFO: No tasks are running which match the specified criteria.\r\n";
    assert_eq!(ProcessUtils::get_process_id("gmod.exe", text), None);
}

#[test]
fn line_without_the_name_is_passed_over() {
    let text = listing(&["\"hl2.exe\",\"77\",\"Console\",\"1\",\"9 K\""]);
    assert_eq!(ProcessUtils::get_process_id("gmod.exe", &text), None);
    assert_eq!(ProcessUtils::get_process_id("hl2.exe", &text), Some(77));
}

#[test]
fn line_that_gives_no_number_is_passed_over() {
    let text = listing(&[
        "\"gmod.exe\",\"N/A\",\"Console\"",
        "\"gmod.exe\"",
        "\"gmod.exe\",\"\"",
        "\"gmod.exe\",\"12 \"",
        "\"gmod.exe\",\"-5\"",
        "\"gmod.exe\",\"+\"",
        "\"gmod.exe\",\"4294967296\"",
        "\"gmod.exe\",\"31337\"",
    ]);
    assert_eq!(ProcessUtils::get_process_id("gmod.exe", &text), Some(31337));
}

#[test]
fn largest_and_smallest_numbers_are_read() {
    let text = listing(&["\"gmod.exe\",\"4294967295\""]);
    assert_eq!(ProcessUtils::get_process_id("gmod.exe", &text), Some(u32::MAX));
    let text = listing(&["\"gmod.exe\",\"0\""]);
    assert_eq!(ProcessUtils::get_process_id("gmod.exe", &text), Some(0));
    let text = listing(&["\"gmod.exe\",\"99999999999999999999\"", "\"gmod.exe\",\"5\""]);
    assert_eq!(ProcessUtils::get_process_id("gmod.exe", &text), Some(5));
}

#[test]
fn plus_sign_and_leading_zeros_are_taken() {
    let text = listing(&["\"gmod.exe\",\"+0000000000000123\""]);
    assert_eq!(ProcessUtils::get_process_id("gmod.exe", &text), Some(123));
    let text = listing(&["\"gmod.exe\",\"++1\"", "\"gmod.exe\",\"8\""]);
    assert_eq!(ProcessUtils::get_process_id("gmod.exe", &text), Some(8));
}

#[test]
fn quotes_around_the_field_are_dropped_however_many() {
    let text = listing(&["gmod.exe,\"\"\"512\"\"\",x"]);
    assert_eq!(ProcessUtils::get_process_id("gmod.exe", &text), Some(512));
    let text = listing(&["gmod.exe,640"]);
    assert_eq!(ProcessUtils::get_process_id("gmod.exe", &text), Some(640));
    let text = listing(&["gmod.exe,\"6\"4\""]);
    assert_eq!(ProcessUtils::get_process_id("gmod.exe", &text), None);
}

#[test]
fn line_endings_of_either_kind_are_taken() {
    let text = "header\n\"gmod.exe\",\"9\"\n";
    assert_eq!(ProcessUtils::get_process_id("gmod.exe", text), Some(9));
    let text = "header\r\n\"gmod.exe\",\"9\"";
    assert_eq!(ProcessUtils::get_process_id("gmod.exe", text), Some(9));
    let text = "header\n\"gmod.exe\",9\r\n";
    assert_eq!(ProcessUtils::get_process_id("gmod.exe", text), Some(9));
}

#[test]
fn carriage_return_without_line_feed_stays_in_the_line() {
    let text = "header\ngmod.exe,9\r";
    assert_eq!(ProcessUtils::get_process_id("gmod.exe", text), None);
    let text = "header\ngmod.exe,9\r\r\n";
    assert_eq!(ProcessUtils::get_process_id("gmod.exe", text), None);
}

#[test]
fn name_may_stand_anywhere_in_the_line() {
    let text = listing(&["\"x\",\"15\",\"started by gmod.exe\""]);
    assert_eq!(ProcessUtils::get_process_id("gmod.exe", &text), Some(15));
}

#[test]
fn running_process_is_one_that_the_listing_mentions() {
    let text = listing(&["\"gmod.exe\",\"4242\",\"Console\",\"1\",\"1,024 K\""]);
    assert!(ProcessUtils::is_process_running("gmod.exe", &text));
    assert!(!ProcessUtils::is_process_running("hl2.exe", &text));
    assert!(!ProcessUtils::is_process_running("gmod.exe", ""));
    assert!(ProcessUtils::is_process_running("", ""));
    assert!(ProcessUtils::is_process_running("PID", HEADER));
    assert!(!ProcessUtils::is_process_running("gmod.exe", "gmod.ex"));
    assert!(ProcessUtils::is_process_running("aab", "aaab"));
}

#[test]
fn host_is_found_under_its_first_listed_name() {
    let none = String::from("INFO: No tasks are running which match the specified criteria.\r\n");
    let gmod = listing(&["\"gmod.exe\",\"10\",\"Console\",\"1\",\"9 K\""]);
    let hl2 = listing(&["\"hl2.exe\",\"20\",\"Console\",\"1\",\"9 K\""]);
    let garrysmod = listing(&["\"garrysmod.exe\",\"30\",\"Console\",\"1\",\"9 K\""]);
    assert_eq!(
        ProcessUtils::find_gmod_process(&vec![gmod.clone(), hl2.clone(), garrysmod.clone()]),
        Some((10, String::from("gmod.exe")))
    );
    assert_eq!(
        ProcessUtils::find_gmod_process(&vec![none.clone(), hl2.clone(), garrysmod.clone()]),
        Some((20, String::from("hl2.exe")))
    );
    assert_eq!(
        ProcessUtils::find_gmod_process(&vec![none.clone(), none.clone(), garrysmod.clone()]),
        Some((30, String::from("garrysmod.exe")))
    );
    assert_eq!(ProcessUtils::find_gmod_process(&vec![none.clone(), none.clone(), none.clone()]), None);
}

#[test]
fn listing_is_read_for_the_name_at_its_place() {
    let hl2 = listing(&["\"hl2.exe\",\"20\",\"Console\",\"1\",\"9 K\""]);
    assert_eq!(ProcessUtils::find_gmod_process(&vec![hl2.clone()]), None);
    assert_eq!(ProcessUtils::find_gmod_process(&vec![]), None);
    let gmod = listing(&["\"gmod.exe\",\"10\",\"Console\",\"1\",\"9 K\""]);
    assert_eq!(
        ProcessUtils::find_gmod_process(&vec![String::new(), String::new(), String::new(), gmod]),
        None
    );
}

/// The same reading, made with the standard library's own functions for
/// lines, fields and numbers.
fn read_with_std(process_name: &str, listing: &str) -> Option<u32> {
    for (index, line) in listing.lines().enumerate() {
        if index == 0 || !line.contains(process_name) {
            continue;
        }
        let parts: Vec<&str> = line.split(',').collect();
        if parts.len() >= 2 {
            if let Ok(pid) = parts[1].trim_matches('"').parse::<u32>() {
                return Some(pid);
            }
        }
    }
    None
}

/// Numbers that look random and are the same on every run.
struct Dice(u64);

impl Dice {
    fn roll(&mut self, sides: usize) -> usize {
        self.0 = self.0.wrapping_mul(6364136223846793005).wrapping_add(1442695040888963407);
        ((self.0 >> 33) as usize) % sides
    }
}

#[test]
fn reading_agrees_with_the_standard_library_on_made_up_listings() {
    let pieces = [
        "gmod.exe", "hl2.exe", "\"", ",", "\r\n", "\n", "\r", "+", "-", "0", "7", "42", "4294967295",
        "4294967296", " ", "x", "\u{e9}", "\"gmod.exe\",\"", "\",\"Console\"", "gmod.ex", "e",
    ];
    let names = ["gmod.exe", "hl2.exe", "e", "", "\u{e9}", "42"];
    let mut dice = Dice(2024);
    for _ in 0..40000 {
        let mut listing = String::new();
        for _ in 0..dice.roll(14) {
            listing.push_str(pieces[dice.roll(pieces.len())]);
        }
        let name = names[dice.roll(names.len())];
        assert_eq!(
            ProcessUtils::get_process_id(name, &listing),
            read_with_std(name, &listing),
            "name {:?}, listing {:?}",
            name,
            listing
        );
        assert_eq!(
            ProcessUtils::is_process_running(name, &listing),
            listing.contains(name),
            "name {:?}, listing {:?}",
            name,
            listing
        );
    }
}
