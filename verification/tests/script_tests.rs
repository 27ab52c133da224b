use slurmtail::extract_job_name;
use slurmtail::extract_log_output_pattern;

#[test]
fn output_directive_equals_form() {
    let script = b"#!/bin/bash\n#SBATCH --output=out.%j.log\necho hi\n".to_vec();
    assert_eq!(extract_log_output_pattern(&script), Some(b"out.%j.log".to_vec()));
}

#[test]
fn output_directive_space_form() {
    let script = b"#!/bin/bash\n#SBATCH --output out.%j.log\n".to_vec();
    assert_eq!(extract_log_output_pattern(&script), Some(b"out.%j.log".to_vec()));
}

#[test]
fn output_directive_short_form() {
    let script = b"#SBATCH -o short.log\n".to_vec();
    assert_eq!(extract_log_output_pattern(&script), Some(b"short.log".to_vec()));
}

#[test]
fn output_directive_short_equals_form() {
    let script = b"#SBATCH -o=short.log\n".to_vec();
    assert_eq!(extract_log_output_pattern(&script), Some(b"short.log".to_vec()));
}

#[test]
fn equals_value_stops_at_second_equals() {
    let script = b"#SBATCH --output=a=b\n".to_vec();
    assert_eq!(extract_log_output_pattern(&script), Some(b"a".to_vec()));
}

#[test]
fn first_matching_line_wins() {
    let script = b"#SBATCH --output=first.log\n#SBATCH --output=second.log\n".to_vec();
    assert_eq!(extract_log_output_pattern(&script), Some(b"first.log".to_vec()));
}

#[test]
fn directive_line_is_trimmed_before_matching() {
    let script = b"   #SBATCH --output=padded.log   \n".to_vec();
    assert_eq!(extract_log_output_pattern(&script), Some(b"padded.log".to_vec()));
}

#[test]
fn no_output_directive_yields_none() {
    let script = b"#!/bin/bash\necho no directives here\n".to_vec();
    assert_eq!(extract_log_output_pattern(&script), None);
}

#[test]
fn space_form_without_value_is_passed_over() {
    // The first matching line has no third token and no `=`; the scan
    // goes on to the next directive line.
    let script = b"#SBATCH --output\n#SBATCH --output real.log\n".to_vec();
    assert_eq!(extract_log_output_pattern(&script), Some(b"real.log".to_vec()));
}

#[test]
fn empty_script_yields_none() {
    assert_eq!(extract_log_output_pattern(&Vec::new()), None);
}

#[test]
fn job_name_long_form() {
    let script = b"#SBATCH --job-name=myjob\n#SBATCH --output=o.log\n".to_vec();
    assert_eq!(extract_job_name(&script), Some(b"myjob".to_vec()));
}

#[test]
fn job_name_short_form() {
    let script = b"#SBATCH -J myjob\n".to_vec();
    assert_eq!(extract_job_name(&script), Some(b"myjob".to_vec()));
}

#[test]
fn job_name_absent_yields_none() {
    let script = b"#SBATCH --output=o.log\n".to_vec();
    assert_eq!(extract_job_name(&script), None);
}
