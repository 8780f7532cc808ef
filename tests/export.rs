use hipchat_export::downloads::{plan_downloads, Download};
use hipchat_export::encode::{encode_messages, message_fields};
use hipchat_export::model::{Attachment, Message, User};
use hipchat_export::paging::{is_last_page, PageAction, PageCursor};
use hipchat_export::paths::{attachment_path, messages_path, user_directory};
use hipchat_export::run::ExportRun;
use hipchat_export::select::{find_user, select_users, SelectError};

fn message(date: &str, sender: Option<&str>, body: &str, file: Option<(&str, &str)>) -> Message {
    Message {
        date: date.to_string(),
        sender: sender.map(|s| s.to_string()),
        body: body.to_string(),
        attachment: file.map(|(name, url)| Attachment { name: name.to_string(), url: url.to_string() }),
    }
}

fn page_of(n: usize) -> Vec<Message> {
    (0..n).map(|i| message(&format!("t{}", i), Some("ann"), "hi", None)).collect()
}

fn users(names: &[&str]) -> Vec<User> {
    names.iter().enumerate().map(|(i, n)| User { id: i as u64, name: n.to_string() }).collect()
}

fn names(us: &[User]) -> Vec<String> {
    us.iter().map(|u| u.name.clone()).collect()
}

#[test]
fn encode_gives_one_row_per_message_in_order() {
    let page = vec![
        message("2016-01-01T10:00:00+00:00", Some("ann"), "hello", Some(("a.png", "http://x/a"))),
        message("2016-01-01T10:01:00+00:00", Some("bob"), "hi", None),
    ];
    let out = encode_messages(&page).unwrap();
    assert_eq!(out, "2016-01-01T10:00:00+00:00,ann,hello,a.png\n2016-01-01T10:01:00+00:00,bob,hi,\n");
    let rows: Vec<&str> = out.lines().collect();
    assert_eq!(rows.len(), 2);
    for row in rows {
        assert_eq!(row.split(',').count(), 4);
    }
}

#[test]
fn encode_empty_page_is_empty() {
    assert_eq!(encode_messages(&Vec::new()), Ok(String::new()));
}

#[test]
fn encode_missing_sender_and_attachment_are_empty_columns() {
    let page = vec![message("t", None, "body", None)];
    assert_eq!(encode_messages(&page).unwrap(), "t,,body,\n");
    let fields = message_fields(&page[0]);
    assert_eq!(fields, vec!["t".to_string(), String::new(), "body".to_string(), String::new()]);
}

#[test]
fn encode_quotes_delimiter_and_quote() {
    let page = vec![message("t", Some("ann"), "say \"yes\", then go", None)];
    assert_eq!(encode_messages(&page).unwrap(), "t,ann,\"say \"\"yes\"\", then go\",\n");
}

#[test]
fn encode_quotes_line_breaks() {
    let page = vec![message("t", Some("ann"), "one\ntwo\rthree", Some(("a,b.txt", "u")))];
    assert_eq!(encode_messages(&page).unwrap(), "t,ann,\"one\ntwo\rthree\",\"a,b.txt\"\n");
}

#[test]
fn cursor_starts_advance_by_page_size() {
    let mut cursor = PageCursor::new(500);
    let mut starts = Vec::new();
    for _ in 0..4 {
        starts.push(cursor.start_index());
        assert_eq!(cursor.on_page(500), PageAction::ProcessThenContinue);
    }
    assert_eq!(starts, vec![0, 500, 1000, 1500]);
    assert_eq!(cursor.start_index(), 2000);
    assert!(!cursor.is_finished());
}

fn run_script(sizes: &[usize]) -> (Vec<u64>, Vec<PageAction>, String, usize) {
    let run = ExportRun::with_reference_date("out".to_string(), 500, "2016-01-01T00:00:00Z".to_string());
    let user = User { id: 1, name: "ann".to_string() };
    let mut target = run.for_user(&user);
    let mut starts = Vec::new();
    let mut actions = Vec::new();
    let mut log = String::new();
    let mut fetches = 0;
    let mut next = 0;
    while !target.cursor.is_finished() && next < sizes.len() {
        let request = run.request(&target.cursor);
        starts.push(request.start_index);
        let mut page = page_of(sizes[next]);
        for m in page.iter_mut() {
            m.attachment = Some(Attachment { name: "f".to_string(), url: "u".to_string() });
        }
        next += 1;
        let work = target.take_page(&page);
        actions.push(work.action);
        if work.action != PageAction::Stop {
            log.push_str(&work.log_text.unwrap());
            fetches += work.downloads.len();
        }
    }
    (starts, actions, log, fetches)
}

#[test]
fn export_stops_after_short_page() {
    let (starts, actions, log, fetches) = run_script(&[500, 500, 230, 500]);
    assert_eq!(starts, vec![0, 500, 1000]);
    assert_eq!(
        actions,
        vec![PageAction::ProcessThenContinue, PageAction::ProcessThenContinue, PageAction::ProcessThenStop]
    );
    assert_eq!(log.lines().count(), 1230);
    assert_eq!(fetches, 1230);
}

#[test]
fn export_stops_on_empty_page() {
    let (starts, actions, log, fetches) = run_script(&[500, 0, 500]);
    assert_eq!(starts, vec![0, 500]);
    assert_eq!(actions, vec![PageAction::ProcessThenContinue, PageAction::Stop]);
    assert_eq!(log.lines().count(), 500);
    assert_eq!(fetches, 500);
}

#[test]
fn empty_page_gives_nothing_to_write_or_fetch() {
    let run = ExportRun::with_reference_date("out".to_string(), 500, "d".to_string());
    let mut target = run.for_user(&User { id: 1, name: "ann".to_string() });
    let work = target.take_page(&Vec::new());
    assert_eq!(work.action, PageAction::Stop);
    assert_eq!(work.log_text, Ok(String::new()));
    assert!(work.downloads.is_empty());
    assert!(target.cursor.is_finished());
}

#[test]
fn last_page_predicate() {
    assert!(is_last_page(0, 500));
    assert!(is_last_page(230, 500));
    assert!(!is_last_page(500, 500));
    assert!(is_last_page(0, 0));
}

#[test]
fn resume_at_named_user() {
    let all = users(&["A", "B", "C", "D"]);
    let chosen = select_users(all, &Some("C".to_string())).unwrap();
    assert_eq!(names(&chosen), vec!["C", "D"]);
    assert_eq!(chosen[0].id, 2);
}

#[test]
fn resume_at_absent_user_aborts() {
    let all = users(&["A", "B", "C", "D"]);
    assert_eq!(select_users(all, &Some("Z".to_string())).map(|v| v.len()), Err(SelectError::UnknownUser));
}

#[test]
fn resume_is_exact_and_first_match_wins() {
    let all = users(&["a", "C", "B", "C"]);
    assert_eq!(find_user(&all, &"c".to_string()), None);
    assert_eq!(find_user(&all, &"C".to_string()), Some(1));
    let chosen = select_users(all, &Some("C".to_string())).unwrap();
    assert_eq!(names(&chosen), vec!["C", "B", "C"]);
}

#[test]
fn no_resume_keeps_all_users() {
    let all = users(&["A", "B"]);
    assert_eq!(select_users(all.clone(), &None), Ok(all));
}

#[test]
fn every_attachment_is_planned() {
    let page = vec![
        message("t1", Some("ann"), "a", Some(("one.txt", "http://h/1"))),
        message("t2", Some("ann"), "b", Some(("two.txt", "http://h/2"))),
        message("t3", None, "c", None),
        message("t4", Some("bob"), "d", Some(("three.txt", "http://h/3"))),
    ];
    let plan = plan_downloads(&page, &"out/ann".to_string());
    assert_eq!(
        plan,
        vec![
            Download { url: "http://h/1".to_string(), path: "out/ann/t1 one.txt".to_string() },
            Download { url: "http://h/2".to_string(), path: "out/ann/t2 two.txt".to_string() },
            Download { url: "http://h/3".to_string(), path: "out/ann/t4 three.txt".to_string() },
        ]
    );
    assert_eq!(encode_messages(&page).unwrap().lines().count(), 4);
}

#[test]
fn attachment_path_is_deterministic() {
    let dir = "out/ann".to_string();
    let a = attachment_path(&dir, &"2016-01-01T10:00:00".to_string(), &"a b.png".to_string());
    let b = attachment_path(&dir, &"2016-01-01T10:00:00".to_string(), &"a b.png".to_string());
    assert_eq!(a, b);
    assert_eq!(a, "out/ann/2016-01-01T10:00:00 a b.png");
}

#[test]
fn user_layout_paths() {
    let dir = user_directory(&"/tmp/export".to_string(), &"ann".to_string());
    assert_eq!(dir, "/tmp/export/ann");
    assert_eq!(messages_path(&dir), "/tmp/export/ann/messages.csv");
    let run = ExportRun::with_reference_date("/tmp/export".to_string(), 500, "d".to_string());
    let target = run.for_user(&User { id: 7, name: "ann".to_string() });
    assert_eq!(target.directory, "/tmp/export/ann");
    assert_eq!(target.log_path, "/tmp/export/ann/messages.csv");
    assert_eq!(target.cursor.start_index(), 0);
    assert_eq!(target.cursor.page_size(), 500);
}

#[test]
fn requests_carry_the_run_date() {
    let run = ExportRun::begin("out".to_string(), 500);
    assert!(!run.reference_date.is_empty());
    assert_eq!(run.page_size, 500);
    let mut cursor = PageCursor::new(500);
    cursor.on_page(500);
    let first = run.request(&cursor);
    cursor.on_page(500);
    let second = run.request(&cursor);
    assert_eq!(first.start_index, 500);
    assert_eq!(second.start_index, 1000);
    assert_eq!(first.max_results, 500);
    assert!(!first.reversed);
    assert_eq!(first.date, run.reference_date);
    assert_eq!(second.date, first.date);
}
