use pit_wall::status::{assemble_line, elapsed_string, eta_string, status_string};
use pit_wall::{Progress, TimeSpan};
use std::time::Duration;

fn split(line: &str) -> (String, String, String) {
    let started = line.find(" started ").unwrap() + " started ".len();
    let ago = line.rfind(" ago, eta: ").unwrap();
    (
        line[..started].to_string(),
        line[started..ago].to_string(),
        line[ago..].to_string(),
    )
}

#[test]
fn line_is_assembled_field_by_field() {
    assert_eq!(
        assemble_line("job name", 2, 100, "2s", "98s"),
        "job name 2/100 - 2.0% started 2s ago, eta: 98s"
    );
    assert_eq!(
        assemble_line("test progress", 50, 100, "41ns", "0s"),
        "test progress 50/100 - 50.0% started 41ns ago, eta: 0s"
    );
    assert_eq!(
        assemble_line("", 0, 0, "", ""),
        " 0/0 - NaN% started  ago, eta: "
    );
    assert_eq!(
        assemble_line("a b", 7, 0, "x", "y"),
        "a b 7/0 - inf% started x ago, eta: y"
    );
}

#[test]
fn line_keeps_the_name_verbatim() {
    assert_eq!(
        assemble_line("caf\u{e9} \u{2603} 1/2 - ", 1, 3, "1s", "2s"),
        "caf\u{e9} \u{2603} 1/2 -  1/3 - 33.3% started 1s ago, eta: 2s"
    );
}

#[test]
fn elapsed_field_is_rounded_to_whole_units() {
    assert_eq!(elapsed_string(TimeSpan::new(0, 41).unwrap()), "41ns");
    assert_eq!(elapsed_string(TimeSpan::new(0, 3_200_000).unwrap()), "3ms");
    assert_eq!(elapsed_string(TimeSpan::from_secs(2)), "2s");
    assert_eq!(elapsed_string(TimeSpan::new(2, 400_000_000).unwrap()), "2s");
    assert_eq!(elapsed_string(TimeSpan::from_secs(0)), "0ns");
    assert_eq!(
        elapsed_string(TimeSpan::new(75, 1).unwrap()),
        format!("{:.0?}", Duration::new(75, 1))
    );
}

#[test]
fn eta_field_says_done_at_the_total() {
    assert_eq!(eta_string(100, 100, 0), "done!");
    assert_eq!(eta_string(100, 100, 5000), "done!");
    assert_eq!(eta_string(0, 0, 7), "done!");
    assert_eq!(eta_string(u64::MAX, u64::MAX, u64::MAX), "done!");
}

#[test]
fn eta_field_is_zero_at_the_start_and_when_overcounted() {
    assert_eq!(eta_string(50, 100, 0), "0s");
    assert_eq!(eta_string(0, 100, 0), "0s");
    assert_eq!(eta_string(3, 2, 0), "0s");
    assert_eq!(eta_string(3, 2, 99), "0s");
}

#[test]
fn eta_field_puts_the_estimate_in_words() {
    assert_eq!(eta_string(50, 100, 1), "1s");
    assert_eq!(eta_string(2, 100, 2), "1m 38s");
    assert_eq!(eta_string(1, 100, 100), "2h 45m");
    assert_eq!(
        eta_string(0, 100, 1),
        humantime::format_duration(Duration::from_secs(u64::MAX)).to_string()
    );
}

#[test]
fn status_string_after_a_given_time() {
    assert_eq!(
        status_string("job name", 2, 100, TimeSpan::from_secs(2)),
        "job name 2/100 - 2.0% started 2s ago, eta: 1m 38s"
    );
    assert_eq!(
        status_string("job name", 100, 100, TimeSpan::from_secs(2)),
        "job name 100/100 - 100.0% started 2s ago, eta: done!"
    );
}

#[test]
fn progress_string_after_a_given_time() {
    let mut progress = Progress::new("test progress", 100);
    progress.set_work_done(50);
    assert_eq!(
        progress.progress_string_after(TimeSpan::new(0, 41).unwrap()),
        "test progress 50/100 - 50.0% started 41ns ago, eta: 0s"
    );
    assert_eq!(
        progress.progress_string_after(TimeSpan::from_secs(1)),
        "test progress 50/100 - 50.0% started 1s ago, eta: 1s"
    );
    progress.set_work_done(100);
    assert_eq!(
        progress.progress_string_after(TimeSpan::from_secs(90)),
        "test progress 100/100 - 100.0% started 90s ago, eta: done!"
    );
}

#[test]
fn progress_string_of_an_overcounted_job() {
    let mut progress = Progress::new("test progress", 2);
    progress.inc_work_done();
    progress.inc_work_done();
    progress.inc_work_done();
    assert_eq!(
        progress.progress_string_after(TimeSpan::from_secs(3)),
        "test progress 3/2 - 150.0% started 3s ago, eta: 0s"
    );
}

#[test]
fn progress_string_of_an_empty_job() {
    let mut progress = Progress::new("empty", 0);
    assert_eq!(
        progress.progress_string_after(TimeSpan::from_secs(1)),
        "empty 0/0 - NaN% started 1s ago, eta: done!"
    );
    progress.inc_work_done();
    assert_eq!(
        progress.progress_string_after(TimeSpan::from_secs(1)),
        "empty 1/0 - inf% started 1s ago, eta: 0s"
    );
}

#[test]
fn complete_job_always_says_done() {
    for total in [0, 1, 100, u64::MAX] {
        let mut progress = Progress::new("job", total);
        progress.set_work_done(total);
        assert!(progress.get_progress_string().ends_with(" ago, eta: done!"));
        for secs in [0, 1, 3600, u64::MAX] {
            let line = progress.progress_string_after(TimeSpan::from_secs(secs));
            assert!(line.ends_with(" ago, eta: done!"));
        }
    }
}

#[test]
fn two_lines_in_a_row_differ_only_in_the_elapsed_field() {
    let mut progress = Progress::new("test progress", 100);
    progress.set_work_done(50);
    let (head_1, _, tail_1) = split(&progress.get_progress_string());
    let (head_2, _, tail_2) = split(&progress.get_progress_string());
    assert_eq!(head_1, "test progress 50/100 - 50.0% started ");
    assert_eq!(head_1, head_2);
    assert_eq!(tail_1, tail_2);
}

#[test]
fn lines_within_one_second_differ_only_in_the_elapsed_field() {
    let mut progress = Progress::new("job", 10);
    progress.set_work_done(4);
    let early = progress.progress_string_after(TimeSpan::new(8, 1).unwrap());
    let late = progress.progress_string_after(TimeSpan::new(8, 999_999_999).unwrap());
    let (head_1, elapsed_1, tail_1) = split(&early);
    let (head_2, elapsed_2, tail_2) = split(&late);
    assert_eq!(head_1, head_2);
    assert_eq!(tail_1, " ago, eta: 12s");
    assert_eq!(tail_1, tail_2);
    assert_eq!(elapsed_1, "8s");
    assert_eq!(elapsed_2, "9s");
}
