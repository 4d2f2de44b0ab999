//! Command executor: the external commands the appliance runs, as values.
//!
//! Nothing here starts a process. A [`Command`] says which program is to be
//! run with which arguments; [`run_command`] decides, from the mode the
//! appliance runs in, whether it is run or only announced.

use vstd::prelude::*;

verus! {

/// An external program and its arguments, in the order they are passed.
#[derive(Clone, Debug, PartialEq, Eq)]
pub struct Command {
    pub program: String,
    pub args: Vec<String>,
}

/// Mathematical content of a [`Command`].
pub struct CommandView {
    pub program: Seq<char>,
    pub args: Seq<Seq<char>>,
}

impl View for Command {
    type V = CommandView;

    open spec fn view(&self) -> CommandView {
        CommandView { program: self.program@, args: self.args.deep_view() }
    }
}

/// `s` between two double quotes.
pub open spec fn quoted(s: Seq<char>) -> Seq<char> {
    seq!['"'] + s + seq!['"']
}

/// The command that joins the network `ssid` as a station.
pub open spec fn station_command(ssid: Seq<char>, password: Seq<char>) -> CommandView {
    CommandView {
        program: "nmcli"@,
        args: seq!["dev"@, "wifi"@, "connect"@, quoted(ssid), "password"@, quoted(password)],
    }
}

/// The command that switches power management off on `interface`.
pub open spec fn power_save_off_command(interface: Seq<char>) -> CommandView {
    CommandView { program: "iwconfig"@, args: seq![interface, "power"@, "off"@] }
}

/// The words of a command line, joined by single spaces.
pub open spec fn spaced(words: Seq<Seq<char>>) -> Seq<char>
    decreases words.len(),
{
    if words.len() == 0 {
        Seq::<char>::empty()
    } else if words.len() == 1 {
        words[0]
    } else {
        spaced(words.drop_last()) + seq![' '] + words.last()
    }
}

/// The line that announces a command instead of running it.
pub open spec fn announcement(program: Seq<char>, args: Seq<Seq<char>>) -> Seq<char> {
    "Running command: "@ + program + seq![' '] + spaced(args)
}

/// What is to be done with a command.
#[derive(Clone, Debug, PartialEq, Eq)]
pub enum Dispatch {
    /// Print this line and run nothing.
    Announce(String),
    /// Run the command, wait for it to end and discard what it prints.
    Execute,
}

fn quote(s: &str) -> (r: String)
    ensures
        r@ == quoted(s@),
{
    proof {
        reveal_strlit("\"");
    }
    let mut r = String::from_str("\"");
    r.append(s);
    r.append("\"");
    assert(r@ =~= quoted(s@));
    r
}

/// The command that joins the network `ssid` as a station, with the SSID
/// and the password each passed between double quotes.
pub fn connect_to_network(ssid: &str, password: &str) -> (c: Command)
    ensures
        c@ == station_command(ssid@, password@),
{
    let mut args: Vec<String> = Vec::new();
    args.push(String::from_str("dev"));
    args.push(String::from_str("wifi"));
    args.push(String::from_str("connect"));
    args.push(quote(ssid));
    args.push(String::from_str("password"));
    args.push(quote(password));
    let c = Command { program: String::from_str("nmcli"), args };
    assert(c@.args =~= station_command(ssid@, password@).args);
    c
}

/// The command that switches power management off on `interface`.
pub fn disable_pwr_mgmt(interface: &str) -> (c: Command)
    ensures
        c@ == power_save_off_command(interface@),
{
    let mut args: Vec<String> = Vec::new();
    args.push(String::from_str(interface));
    args.push(String::from_str("power"));
    args.push(String::from_str("off"));
    let c = Command { program: String::from_str("iwconfig"), args };
    assert(c@.args =~= power_save_off_command(interface@).args);
    c
}

fn join_spaced(words: &Vec<String>) -> (r: String)
    ensures
        r@ == spaced(words.deep_view()),
{
    let mut r = String::new();
    let mut i: usize = 0;
    while i < words.len()
        invariant
            i <= words.len(),
            r@ == spaced(words.deep_view().take(i as int)),
        decreases words.len() - i,
    {
        proof {
            reveal_strlit(" ");
            let next = words.deep_view().take(i + 1);
            assert(next.drop_last() =~= words.deep_view().take(i as int));
            assert(next.last() == words[i as int]@);
        }
        if i > 0 {
            r.append(" ");
        }
        r.append(words[i].as_str());
        assert(r@ =~= spaced(words.deep_view().take(i + 1)));
        i += 1;
    }
    assert(words.deep_view().take(i as int) =~= words.deep_view());
    r
}

/// Decides what is done with the command `cmd args`: in debug mode it is
/// announced on one line and not run, otherwise it is run.
pub fn run_command(cmd: &str, args: &Vec<String>, debug: bool) -> (d: Dispatch)
    ensures
        debug ==> (d matches Dispatch::Announce(line) && line@ == announcement(
            cmd@,
            args.deep_view(),
        )),
        !debug ==> d is Execute,
{
    if debug {
        let mut line = String::from_str("Running command: ");
        line.append(cmd);
        line.append(" ");
        let joined = join_spaced(args);
        line.append(joined.as_str());
        proof {
            reveal_strlit(" ");
            assert(line@ =~= announcement(cmd@, args.deep_view()));
        }
        Dispatch::Announce(line)
    } else {
        Dispatch::Execute
    }
}

} // verus!
