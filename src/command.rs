use vstd::prelude::*;

verus! {

/// Name of the external encoder program.
pub const ENCODER: &'static str = "gifsicle";

/// The decimal digit character of `d < 10`.
pub open spec fn digit_char(d: int) -> char {
    if d == 0 { '0' } else if d == 1 { '1' } else if d == 2 { '2' } else if d == 3 { '3' }
    else if d == 4 { '4' } else if d == 5 { '5' } else if d == 6 { '6' } else if d == 7 { '7' }
    else if d == 8 { '8' } else { '9' }
}

/// The decimal representation of `n`, without leading zeros.
pub open spec fn decimal_spec(n: nat) -> Seq<char>
    decreases n,
{
    if n < 10 {
        seq![digit_char(n as int)]
    } else {
        decimal_spec(n / 10).push(digit_char((n % 10) as int))
    }
}

pub(crate) fn digit(d: u128) -> (r: &'static str)
    requires
        d < 10,
    ensures
        r@ == seq![digit_char(d as int)],
{
    proof {
        reveal_strlit("0");
        reveal_strlit("1");
        reveal_strlit("2");
        reveal_strlit("3");
        reveal_strlit("4");
        reveal_strlit("5");
        reveal_strlit("6");
        reveal_strlit("7");
        reveal_strlit("8");
        reveal_strlit("9");
    }
    let r = if d == 0 { "0" } else if d == 1 { "1" } else if d == 2 { "2" } else if d == 3 { "3" }
    else if d == 4 { "4" } else if d == 5 { "5" } else if d == 6 { "6" } else if d == 7 { "7" }
    else if d == 8 { "8" } else { "9" };
    assert(r@ =~= seq![digit_char(d as int)]);
    r
}

/// Writes `n` in decimal.
pub fn decimal(n: u128) -> (r: String)
    ensures
        r@ == decimal_spec(n as nat),
    decreases n,
{
    if n < 10 {
        String::from_str(digit(n))
    } else {
        let head = decimal(n / 10);
        let r = head.concat(digit(n % 10));
        assert(r@ =~= decimal_spec(n as nat));
        r
    }
}

/// The views of a list of arguments.
pub open spec fn arg_views(args: Seq<String>) -> Seq<Seq<char>> {
    args.map_values(|a: String| a@)
}

/// Flags that strip metadata the output does not need.
pub open spec fn strip_flags() -> Seq<Seq<char>> {
    seq!["--no-warnings"@, "--no-conserve-memory"@, "--no-comments"@, "--no-names"@]
}

fn push_str(args: &mut Vec<String>, s: &str)
    ensures
        arg_views(final(args)@) == arg_views(old(args)@).push(s@),
{
    let ghost before = args@;
    args.push(String::from_str(s));
    assert(arg_views(args@) =~= arg_views(before).push(s@));
}

fn push_strip_flags(args: &mut Vec<String>)
    ensures
        arg_views(final(args)@) == arg_views(old(args)@) + strip_flags(),
{
    let ghost before = arg_views(args@);
    push_str(args, "--no-warnings");
    push_str(args, "--no-conserve-memory");
    push_str(args, "--no-comments");
    push_str(args, "--no-names");
    assert(arg_views(args@) =~= before + strip_flags());
}

/// Arguments that ask the encoder for its version, to probe that it exists.
pub fn version_args() -> (r: Vec<String>)
    ensures
        arg_views(r@) == seq!["--version"@],
{
    let mut r: Vec<String> = Vec::new();
    push_str(&mut r, "--version");
    assert(arg_views(r@) =~= seq!["--version"@]);
    r
}

/// The merge arguments: join `frames` in order into `output`, each shown
/// for `delay`, looping forever, without application extensions, comments
/// or names.
pub open spec fn merge_args_spec(output: Seq<char>, delay: nat, frames: Seq<Seq<char>>) -> Seq<
    Seq<char>,
> {
    seq!["--no-warnings"@, "--no-conserve-memory"@, "--no-app-extensions"@, "--no-comments"@,
        "--no-names"@, "-o"@, output, "--delay"@, decimal_spec(delay), "--loopcount=forever"@]
        + frames
}

/// Arguments that merge single-frame files into one animation.
pub fn merge_args(output: &String, delay: u16, frames: &Vec<String>) -> (r: Vec<String>)
    ensures
        arg_views(r@) == merge_args_spec(output@, delay as nat, arg_views(frames@)),
{
    let mut r: Vec<String> = Vec::new();
    push_str(&mut r, "--no-warnings");
    push_str(&mut r, "--no-conserve-memory");
    push_str(&mut r, "--no-app-extensions");
    push_str(&mut r, "--no-comments");
    push_str(&mut r, "--no-names");
    push_str(&mut r, "-o");
    let ghost before = r@;
    r.push(output.clone());
    assert(arg_views(r@) =~= arg_views(before).push(output@));
    push_str(&mut r, "--delay");
    let ghost before = r@;
    r.push(decimal(delay as u128));
    assert(arg_views(r@) =~= arg_views(before).push(decimal_spec(delay as nat)));
    push_str(&mut r, "--loopcount=forever");
    let ghost head = arg_views(r@);
    assert(head =~= seq!["--no-warnings"@, "--no-conserve-memory"@, "--no-app-extensions"@,
        "--no-comments"@, "--no-names"@, "-o"@, output@, "--delay"@, decimal_spec(delay as nat),
        "--loopcount=forever"@]);
    let mut i: usize = 0;
    while i < frames.len()
        invariant
            0 <= i <= frames@.len(),
            arg_views(r@) == head + arg_views(frames@).take(i as int),
        decreases frames@.len() - i,
    {
        let ghost before = r@;
        r.push(frames[i].clone());
        assert(arg_views(r@) =~= arg_views(before).push(frames@[i as int]@));
        assert(arg_views(frames@).take(i + 1) =~= arg_views(frames@).take(i as int).push(
            frames@[i as int]@,
        ));
        i = i + 1;
    }
    assert(arg_views(frames@).take(frames@.len() as int) =~= arg_views(frames@));
    r
}

/// Arguments of the baseline pass: the highest optimisation level on the
/// whole input, with careful output.
pub fn baseline_args(input: &String, output: &String) -> (r: Vec<String>)
    ensures
        arg_views(r@) == seq!["-O3"@] + strip_flags() + seq!["--careful"@, input@, "-o"@, output@],
{
    let mut r: Vec<String> = Vec::new();
    push_str(&mut r, "-O3");
    push_strip_flags(&mut r);
    push_str(&mut r, "--careful");
    let ghost before = r@;
    r.push(input.clone());
    assert(arg_views(r@) =~= arg_views(before).push(input@));
    push_str(&mut r, "-o");
    let ghost before = r@;
    r.push(output.clone());
    assert(arg_views(r@) =~= arg_views(before).push(output@));
    assert(arg_views(r@) =~= seq!["-O3"@] + strip_flags() + seq!["--careful"@, input@, "-o"@,
        output@]);
    r
}

/// Arguments that re-optimise a subsampled file at the highest level.
pub fn reoptimize_args(input: &String, output: &String) -> (r: Vec<String>)
    ensures
        arg_views(r@) == seq!["-O3"@, input@, "-o"@, output@],
{
    let mut r: Vec<String> = Vec::new();
    push_str(&mut r, "-O3");
    let ghost before = r@;
    r.push(input.clone());
    assert(arg_views(r@) =~= arg_views(before).push(input@));
    push_str(&mut r, "-o");
    let ghost before = r@;
    r.push(output.clone());
    assert(arg_views(r@) =~= arg_views(before).push(output@));
    assert(arg_views(r@) =~= seq!["-O3"@, input@, "-o"@, output@]);
    r
}

/// Arguments that recompress `input` lossily at `level` into `output`.
pub fn lossy_args(level: u32, input: &String, output: &String) -> (r: Vec<String>)
    ensures
        arg_views(r@) == seq!["-O3"@] + strip_flags() + seq![
            "--lossy="@ + decimal_spec(level as nat),
            input@,
            "-o"@,
            output@,
        ],
{
    let mut r: Vec<String> = Vec::new();
    push_str(&mut r, "-O3");
    push_strip_flags(&mut r);
    let level_text = decimal(level as u128);
    let flag = String::from_str("--lossy=").concat(level_text.as_str());
    let ghost before = r@;
    r.push(flag);
    assert(arg_views(r@) =~= arg_views(before).push("--lossy="@ + decimal_spec(level as nat)));
    let ghost before = r@;
    r.push(input.clone());
    assert(arg_views(r@) =~= arg_views(before).push(input@));
    push_str(&mut r, "-o");
    let ghost before = r@;
    r.push(output.clone());
    assert(arg_views(r@) =~= arg_views(before).push(output@));
    assert(arg_views(r@) =~= seq!["-O3"@] + strip_flags() + seq![
        "--lossy="@ + decimal_spec(level as nat),
        input@,
        "-o"@,
        output@,
    ]);
    r
}

} // verus!
