//! The external generator's invocation protocol. One invocation runs
//! `<command> Generate [--<option> ...]`, where every passthrough option is
//! rendered as a long-form, value-less flag, in the order the configuration
//! gave them. Immediately after the spawn, exactly one newline byte is
//! written to the child's standard input — the tool stalls waiting for that
//! confirmation otherwise. The spawn itself, the capture of the child's
//! streams and the newline write happen outside the library, which only
//! fixes here what must be passed and sent.

use vstd::prelude::*;

verus! {

/// The full argument list for one generator invocation: the `Generate`
/// subcommand first, then each passthrough option as a `--`-prefixed flag,
/// in the given order and otherwise unaltered.
pub fn generator_args(options: &Vec<String>) -> (args: Vec<String>)
    ensures
        args@.len() == options@.len() + 1,
        args@[0]@ == "Generate"@,
        forall|i: int| 0 <= i < options@.len() ==> args@[i + 1]@ == "--"@ + options@[i]@,
{
    let mut args: Vec<String> = Vec::new();
    args.push(String::from_str("Generate"));
    let mut i: usize = 0;
    while i < options.len()
        invariant
            i <= options@.len(),
            args@.len() == i + 1,
            args@[0]@ == "Generate"@,
            forall|j: int| 0 <= j < i ==> args@[j + 1]@ == "--"@ + options@[j]@,
        decreases options@.len() - i,
    {
        let flag = String::from_str("--").concat(options[i].as_str());
        args.push(flag);
        i = i + 1;
    }
    args
}

/// The bytes written to the generator's standard input right after the
/// spawn: exactly one newline, the confirmation the tool requires before it
/// starts generating.
pub fn stdin_handshake() -> (b: Vec<u8>)
    ensures
        b@ =~= seq![10u8],
{
    let mut b: Vec<u8> = Vec::new();
    b.push(10);
    b
}

} // verus!
