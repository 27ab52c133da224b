use slurmtail::extract_job_id;
use slurmtail::format_log_output_string;
use slurmtail::logfile_string_to_path;
use slurmtail::path_is_absolute;

#[test]
fn job_id_placeholder_is_replaced() {
    let out = format_log_output_string(b"out.%j.log".to_vec(), 12345, None);
    assert_eq!(out, b"out.12345.log".to_vec());
}

#[test]
fn every_job_id_placeholder_is_replaced() {
    let out = format_log_output_string(b"%j-%j".to_vec(), 7, None);
    assert_eq!(out, b"7-7".to_vec());
}

#[test]
fn name_placeholder_is_replaced_when_known() {
    let name = b"myjob".to_vec();
    let out = format_log_output_string(b"out.%x.%j.log".to_vec(), 9, Some(&name));
    assert_eq!(out, b"out.myjob.9.log".to_vec());
}

#[test]
fn name_placeholder_is_kept_without_a_name() {
    let out = format_log_output_string(b"out.%x.%j.log".to_vec(), 9, None);
    assert_eq!(out, b"out.%x.9.log".to_vec());
}

#[test]
fn pattern_without_placeholders_is_unchanged() {
    let out = format_log_output_string(b"plain.log".to_vec(), 42, None);
    assert_eq!(out, b"plain.log".to_vec());
}

#[test]
fn largest_job_id_formats_exactly() {
    let out = format_log_output_string(b"%j".to_vec(), u64::MAX, None);
    assert_eq!(out, b"18446744073709551615".to_vec());
}

#[test]
fn absolute_logfile_keeps_its_path() {
    let path = logfile_string_to_path(&b"/base".to_vec(), b"/var/log/x.log".to_vec());
    assert_eq!(path, b"/var/log/x.log".to_vec());
    assert!(path_is_absolute(&b"/var/log/x.log".to_vec()));
}

#[test]
fn relative_logfile_is_joined_to_the_base() {
    let path = logfile_string_to_path(&b"/base".to_vec(), b"x.log".to_vec());
    assert_eq!(path, b"/base/x.log".to_vec());
    assert!(!path_is_absolute(&b"x.log".to_vec()));
}

#[test]
fn base_with_trailing_separator_gets_no_second_one() {
    let path = logfile_string_to_path(&b"/base/".to_vec(), b"x.log".to_vec());
    assert_eq!(path, b"/base/x.log".to_vec());
}

#[test]
fn empty_base_leaves_the_logfile_alone() {
    let path = logfile_string_to_path(&b"".to_vec(), b"x.log".to_vec());
    assert_eq!(path, b"x.log".to_vec());
}

#[test]
fn job_id_is_first_numeric_token() {
    let out = b"Submitted batch job 12345".to_vec();
    assert_eq!(extract_job_id(&out), Some(12345));
}

#[test]
fn words_without_numbers_yield_none() {
    let out = b"no job was submitted".to_vec();
    assert_eq!(extract_job_id(&out), None);
}

#[test]
fn leading_plus_parses_like_the_standard_library() {
    let out = b"job +77 queued".to_vec();
    assert_eq!(extract_job_id(&out), Some(77));
}

#[test]
fn overflowing_token_is_passed_over() {
    let out = b"99999999999999999999999 42".to_vec();
    assert_eq!(extract_job_id(&out), Some(42));
}

#[test]
fn largest_job_id_parses() {
    let out = b"18446744073709551615".to_vec();
    assert_eq!(extract_job_id(&out), Some(u64::MAX));
}

#[test]
fn bare_plus_sign_is_not_a_job_id() {
    let out = b"+ 5".to_vec();
    assert_eq!(extract_job_id(&out), Some(5));
}

#[test]
fn mixed_token_is_not_a_job_id() {
    let out = b"job17 then 17".to_vec();
    assert_eq!(extract_job_id(&out), Some(17));
}

#[test]
fn empty_output_yields_none() {
    assert_eq!(extract_job_id(&Vec::new()), None);
}
