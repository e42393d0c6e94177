use vstd::prelude::*;
use vstd::string::*;

verus! {

/// A command read by an interactive control loop.
#[derive(Debug)]
pub enum Command {
    /// `help`: list the commands.
    Help,
    /// `stop`: leave the loop.
    Stop,
    /// Any other line, kept as it was read.
    Unknown(String),
}

/// Whether two strings hold the same characters.
pub fn same_text(a: &str, b: &str) -> (r: bool)
    ensures
        r == (a@ == b@),
{
    let n = a.unicode_len();
    if n != b.unicode_len() {
        return false;
    }
    let mut i: usize = 0;
    while i < n
        invariant
            n == a@.len(),
            n == b@.len(),
            0 <= i <= n,
            forall|j: int| 0 <= j < i ==> a@[j] == b@[j],
        decreases n - i,
    {
        if a.get_char(i) != b.get_char(i) {
            return false;
        }
        i = i + 1;
    }
    proof {
        assert(a@ =~= b@);
    }
    true
}

/// Reads one line of input as a command: `help`, `stop`, or anything else.
pub fn parse_command(line: &str) -> (c: Command)
    ensures
        line@ == "help"@ ==> c is Help,
        line@ == "stop"@ ==> c is Stop,
        line@ != "help"@ && line@ != "stop"@ ==> (c matches Command::Unknown(s) && s@ == line@),
{
    proof {
        reveal_strlit("help");
        reveal_strlit("stop");
        assert("help"@[0] != "stop"@[0]);
    }
    if same_text(line, "help") {
        Command::Help
    } else if same_text(line, "stop") {
        Command::Stop
    } else {
        Command::Unknown(line.to_owned())
    }
}

} // verus!
