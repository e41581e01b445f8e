use gif_compressor::command::{
    baseline_args, decimal, lossy_args, merge_args, reoptimize_args, version_args,
};

fn s(v: &[&str]) -> Vec<String> {
    v.iter().map(|x| x.to_string()).collect()
}

#[test]
fn decimal_writes_digits() {
    assert_eq!(decimal(0), "0");
    assert_eq!(decimal(7), "7");
    assert_eq!(decimal(1203), "1203");
    assert_eq!(decimal(u128::MAX), u128::MAX.to_string());
}

#[test]
fn version_probe() {
    assert_eq!(version_args(), s(&["--version"]));
}

#[test]
fn merge_lists_frames_in_order() {
    let frames = s(&["f0.gif", "f1.gif"]);
    assert_eq!(
        merge_args(&"out.gif".to_string(), 25, &frames),
        s(&[
            "--no-warnings",
            "--no-conserve-memory",
            "--no-app-extensions",
            "--no-comments",
            "--no-names",
            "-o",
            "out.gif",
            "--delay",
            "25",
            "--loopcount=forever",
            "f0.gif",
            "f1.gif",
        ])
    );
}

#[test]
fn baseline_is_careful_full_optimisation() {
    assert_eq!(
        baseline_args(&"in.gif".to_string(), &"t.gif".to_string()),
        s(&[
            "-O3",
            "--no-warnings",
            "--no-conserve-memory",
            "--no-comments",
            "--no-names",
            "--careful",
            "in.gif",
            "-o",
            "t.gif",
        ])
    );
}

#[test]
fn reoptimise_args() {
    assert_eq!(
        reoptimize_args(&"a".to_string(), &"b".to_string()),
        s(&["-O3", "a", "-o", "b"])
    );
}

#[test]
fn lossy_level_is_spelled_out() {
    assert_eq!(
        lossy_args(120, &"a".to_string(), &"b".to_string()),
        s(&[
            "-O3",
            "--no-warnings",
            "--no-conserve-memory",
            "--no-comments",
            "--no-names",
            "--lossy=120",
            "a",
            "-o",
            "b",
        ])
    );
}
