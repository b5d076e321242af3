//! The command line that starts a new player instance.
use vstd::prelude::*;
use vstd::string::*;
use crate::codec::views;

verus! {

/// The player executable started when no override names another; found on
/// the executable search path.
pub const DEFAULT_PLAYER: &'static str = "mpv.exe";

/// The option that makes the player serve its control channel at the
/// address that follows it.
pub const IPC_SERVER_OPTION: &'static str = "--input-ipc-server=";

/// The marker after which the player reads only positional arguments.
pub const END_OF_OPTIONS: &'static str = "--";

/// The program and arguments that start a new player instance.
pub struct LaunchPlan {
    pub program: String,
    pub args: Vec<String>,
}

/// The executable to start: the override when there is one, else the default.
pub open spec fn player_program(player_override: Option<Seq<char>>) -> Seq<char> {
    match player_override {
        Some(p) => p,
        None => DEFAULT_PLAYER@,
    }
}

/// The arguments of a new instance: the channel address option, the end of
/// options, then the references in their order.
pub open spec fn launch_arguments(files: Seq<Seq<char>>, socket_path: Seq<char>) -> Seq<
    Seq<char>,
> {
    seq![IPC_SERVER_OPTION@ + socket_path, END_OF_OPTIONS@] + files
}

impl LaunchPlan {
    /// The plan holds `program` and the arguments for `files` and `socket_path`.
    pub open spec fn describes(
        &self,
        files: Seq<Seq<char>>,
        socket_path: Seq<char>,
        program: Seq<char>,
    ) -> bool {
        self.program@ == program && views(self.args@) == launch_arguments(files, socket_path)
    }
}

/// The plan that starts a player serving its channel at `socket_path` with
/// `files` as its initial playlist, `player_override` naming the executable
/// when it is given.
pub fn launch_plan(files: &Vec<String>, socket_path: &str, player_override: Option<String>) -> (r:
    LaunchPlan)
    ensures
        r.describes(
            views(files@),
            socket_path@,
            player_program(
                match player_override {
                    Some(p) => Some(p@),
                    None => None,
                },
            ),
        ),
{
    let program = match player_override {
        Some(p) => p,
        None => String::from_str(DEFAULT_PLAYER),
    };
    let mut args: Vec<String> = Vec::new();
    let option = String::from_str(IPC_SERVER_OPTION).concat(socket_path);
    args.push(option);
    args.push(String::from_str(END_OF_OPTIONS));
    let mut i: usize = 0;
    while i < files.len()
        invariant
            i <= files@.len(),
            views(args@) == launch_arguments(views(files@).take(i as int), socket_path@),
        decreases files@.len() - i,
    {
        let ghost prev = args@;
        args.push(files[i].clone());
        assert(views(args@) =~= views(prev).push(views(files@)[i as int]));
        assert(views(files@).take(i as int + 1) =~= views(files@).take(i as int).push(
            views(files@)[i as int],
        ));
        assert(views(args@) =~= launch_arguments(views(files@).take(i as int + 1), socket_path@));
        i = i + 1;
    }
    assert(views(files@).take(files@.len() as int) =~= views(files@));
    LaunchPlan { program, args }
}

} // verus!
