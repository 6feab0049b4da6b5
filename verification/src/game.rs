use vstd::prelude::*;
use crate::decimal::{push_signed_decimal, signed_decimal};

verus! {

/// Where the redistributables installer lies on the mirrors.
pub const REDIST_MIRROR_PATH: &'static str = "/redists/UE3Redist.exe";

/// The file name under which the redistributables installer is saved.
pub const REDIST_FILE_NAME: &'static str = "UE3Redist.exe";

/// The settings that shape the game's command line.
pub struct LaunchInfo {
    pub player_name: String,
    pub startup_movie_disabled: bool,
    pub bit_version: String,
}

/// How a child program (the game or the redistributables installer) ended,
/// as the user interface is told of it.
#[derive(Debug)]
pub enum ExitReport {
    /// It exited successfully: the "done" callback is called.
    Done,
    /// It failed with an exit code: the error callback gets this message.
    Crashed(String),
    /// It failed without an exit code (killed by a signal): nothing is
    /// reported to the user interface.
    NoExitCode,
}

/// The failures whose message is a fixed text followed by the error's own.
#[derive(PartialEq, Eq, Structural, Clone, Copy, Debug)]
pub enum Failure {
    /// The game could not be started.
    GameStart,
    /// The redistributables installer could not be downloaded.
    RedistDownload,
    /// Waiting for the redistributables installer failed.
    RedistWait,
    /// The redistributables installer could not be started.
    RedistStart,
}

/// Which program an exit code belongs to.
#[derive(PartialEq, Eq, Structural, Clone, Copy, Debug)]
pub enum Program {
    Game,
    RedistInstaller,
}

/// The path of the game executable under the installation directory.
pub open spec fn game_executable_path(location: Seq<char>, bit_version: Seq<char>) -> Seq<char> {
    location + "/Binaries/Win"@ + bit_version + "/UDK.exe"@
}

/// The game's command line: the server to join (left out when empty), the
/// player name, the switch that skips the intro movie when it is disabled,
/// and the switch to use every core.
pub open spec fn launch_arguments(
    server: Seq<char>,
    player_name: Seq<char>,
    startup_movie_disabled: bool,
) -> Seq<Seq<char>> {
    let joined = if server.len() == 0 {
        Seq::<Seq<char>>::empty()
    } else {
        seq![server]
    };
    let named = joined.push("-ini:UDKGame:DefaultPlayer.Name="@ + player_name);
    let movie = if startup_movie_disabled {
        named.push("-nomoviestartup"@)
    } else {
        named
    };
    movie.push("-UseAllAvailableCores"@)
}

/// The message shown when a program exits with a failure code.
pub open spec fn crash_message(program: Program, code: i32) -> Seq<char> {
    match program {
        Program::Game => "The game exited in a crash: "@ + signed_decimal(code as int),
        Program::RedistInstaller => "UE3Redist.exe exited in a crash: "@ + signed_decimal(
            code as int,
        ),
    }
}

/// The fixed text before the error's own message.
pub open spec fn failure_prefix(failure: Failure) -> Seq<char> {
    match failure {
        Failure::GameStart => "Failed to open game: "@,
        Failure::RedistDownload => "Failed to download UE3Redist: "@,
        Failure::RedistWait => "Failed to wait for UE3Redist: "@,
        Failure::RedistStart => "Failed to open UE3 Redistributables: "@,
    }
}

/// Law: the executable path is the installation directory, then
/// "/Binaries/Win", then the bit version setting, then "/UDK.exe".
pub proof fn lemma_executable_path_layout(location: Seq<char>, bit_version: Seq<char>)
    ensures
        ({
            let path = game_executable_path(location, bit_version);
            let l = location.len() as int;
            let b = bit_version.len() as int;
            &&& path.len() == l + 13 + b + 8
            &&& path.subrange(0, l) == location
            &&& path.subrange(l, l + 13) == "/Binaries/Win"@
            &&& path.subrange(l + 13, l + 13 + b) == bit_version
            &&& path.subrange(l + 13 + b, l + 13 + b + 8) == "/UDK.exe"@
        }),
{
    reveal_strlit("/Binaries/Win");
    reveal_strlit("/UDK.exe");
    let path = game_executable_path(location, bit_version);
    let l = location.len() as int;
    let b = bit_version.len() as int;
    assert(path.subrange(0, l) =~= location);
    assert(path.subrange(l, l + 13) =~= "/Binaries/Win"@);
    assert(path.subrange(l + 13, l + 13 + b) =~= bit_version);
    assert(path.subrange(l + 13 + b, l + 13 + b + 8) =~= "/UDK.exe"@);
}

/// Law: the path follows the bit version setting: two different settings
/// never give the same path for one installation directory.
pub proof fn lemma_executable_path_follows_bit_version(
    location: Seq<char>,
    bits_a: Seq<char>,
    bits_b: Seq<char>,
)
    requires
        bits_a != bits_b,
    ensures
        game_executable_path(location, bits_a) != game_executable_path(location, bits_b),
{
    lemma_executable_path_layout(location, bits_a);
    lemma_executable_path_layout(location, bits_b);
    let l = location.len() as int;
    if game_executable_path(location, bits_a) == game_executable_path(location, bits_b) {
        assert(bits_a.len() == bits_b.len());
        let pa = game_executable_path(location, bits_a);
        assert(bits_a =~= pa.subrange(l + 13, l + 13 + bits_a.len()));
        assert(bits_b =~= pa.subrange(l + 13, l + 13 + bits_b.len()));
    }
}

/// Law: the shape of the game's command line. The server comes first
/// exactly when one is given, then the player name; "-UseAllAvailableCores"
/// is always last, and the argument before it is "-nomoviestartup" exactly
/// when the intro movie is disabled.
pub proof fn lemma_launch_arguments_shape(
    server: Seq<char>,
    player_name: Seq<char>,
    startup_movie_disabled: bool,
)
    ensures
        ({
            let args = launch_arguments(server, player_name, startup_movie_disabled);
            let first = if server.len() > 0 { 1int } else { 0int };
            &&& args.len() == first + 2 + if startup_movie_disabled { 1int } else { 0int }
            &&& server.len() > 0 ==> args[0] == server
            &&& args[first] == "-ini:UDKGame:DefaultPlayer.Name="@ + player_name
            &&& args[args.len() - 1] == "-UseAllAvailableCores"@
            &&& (args[args.len() - 2] == "-nomoviestartup"@) == startup_movie_disabled
        }),
{
    reveal_strlit("-ini:UDKGame:DefaultPlayer.Name=");
    reveal_strlit("-nomoviestartup");
    let args = launch_arguments(server, player_name, startup_movie_disabled);
    if !startup_movie_disabled {
        assert(args[args.len() - 2][1] != "-nomoviestartup"@[1]);
    }
}

/// Law: "-nomoviestartup" stands on the command line exactly when the intro
/// movie is disabled, unless the server text itself is that word.
pub proof fn lemma_movie_switch_follows_setting(
    server: Seq<char>,
    player_name: Seq<char>,
    startup_movie_disabled: bool,
)
    ensures
        launch_arguments(server, player_name, startup_movie_disabled).contains(
            "-nomoviestartup"@,
        ) == (startup_movie_disabled || server == "-nomoviestartup"@),
{
    reveal_strlit("-ini:UDKGame:DefaultPlayer.Name=");
    reveal_strlit("-nomoviestartup");
    reveal_strlit("-UseAllAvailableCores");
    lemma_launch_arguments_shape(server, player_name, startup_movie_disabled);
    let args = launch_arguments(server, player_name, startup_movie_disabled);
    let word = "-nomoviestartup"@;
    let first = if server.len() > 0 { 1int } else { 0int };
    if startup_movie_disabled {
        assert(args[args.len() - 2] == word);
    } else if server == word {
        assert(args[0] == word);
    } else {
        assert forall|i: int| 0 <= i < args.len() implies args[i] != word by {
            if i == first {
                assert(args[i][1] != word[1]);
            } else if i == args.len() - 1 {
                assert(args[i][1] != word[1]);
            } else {
                assert(i == 0 && server.len() > 0);
            }
        }
    }
}

/// The path of the game executable.
pub fn game_executable(location: &str, bit_version: &str) -> (path: String)
    ensures
        path@ == game_executable_path(location@, bit_version@),
{
    let mut path = String::new();
    path.append(location);
    path.append("/Binaries/Win");
    path.append(bit_version);
    path.append("/UDK.exe");
    assert(path@ =~= game_executable_path(location@, bit_version@));
    path
}

/// The game's command line for joining `server` ("" for the main menu).
pub fn game_arguments(server: &str, info: &LaunchInfo) -> (args: Vec<String>)
    ensures
        args@.len() == launch_arguments(
            server@,
            info.player_name@,
            info.startup_movie_disabled,
        ).len(),
        forall|i: int|
            0 <= i < args@.len() ==> #[trigger] args@[i]@ == launch_arguments(
                server@,
                info.player_name@,
                info.startup_movie_disabled,
            )[i],
{
    let ghost expected = launch_arguments(
        server@,
        info.player_name@,
        info.startup_movie_disabled,
    );
    let mut args: Vec<String> = Vec::new();
    if !server.is_empty() {
        args.push(server.to_owned());
    }
    let mut name_arg = String::new();
    name_arg.append("-ini:UDKGame:DefaultPlayer.Name=");
    name_arg.append(info.player_name.as_str());
    args.push(name_arg);
    if info.startup_movie_disabled {
        args.push("-nomoviestartup".to_owned());
    }
    args.push("-UseAllAvailableCores".to_owned());
    assert(args@.len() == expected.len());
    assert forall|i: int| 0 <= i < args@.len() implies #[trigger] args@[i]@ == expected[i] by {
        if server@.len() == 0 {
            if info.startup_movie_disabled {
                if i == 0 {
                    assert(args@[0]@ =~= expected[0]);
                }
            } else {
                if i == 0 {
                    assert(args@[0]@ =~= expected[0]);
                }
            }
        } else {
            if i == 1 {
                assert(args@[1]@ =~= expected[1]);
            }
        }
    }
    args
}

/// The message for a program that exited with `code`.
pub fn crash_text(program: Program, code: i32) -> (message: String)
    ensures
        message@ == crash_message(program, code),
{
    let mut message = String::new();
    match program {
        Program::Game => message.append("The game exited in a crash: "),
        Program::RedistInstaller => message.append("UE3Redist.exe exited in a crash: "),
    }
    push_signed_decimal(&mut message, code as i64);
    assert(message@ =~= crash_message(program, code));
    message
}

/// What the user interface is told when `program` ends: success, its exit
/// status (`success`), and its exit code, when it has one.
pub fn exit_report(program: Program, success: bool, code: Option<i32>) -> (report: ExitReport)
    ensures
        success ==> report == ExitReport::Done,
        !success && code is None ==> report == ExitReport::NoExitCode,
        !success && code is Some ==> (report matches ExitReport::Crashed(m) && m@ == crash_message(
            program,
            code->Some_0,
        )),
{
    if success {
        ExitReport::Done
    } else {
        match code {
            Some(c) => ExitReport::Crashed(crash_text(program, c)),
            None => ExitReport::NoExitCode,
        }
    }
}

/// The message for a failure, with the error's own text after the fixed one.
pub fn failure_message(failure: Failure, detail: &str) -> (message: String)
    ensures
        message@ == failure_prefix(failure) + detail@,
{
    let mut message = String::new();
    match failure {
        Failure::GameStart => message.append("Failed to open game: "),
        Failure::RedistDownload => message.append("Failed to download UE3Redist: "),
        Failure::RedistWait => message.append("Failed to wait for UE3Redist: "),
        Failure::RedistStart => message.append("Failed to open UE3 Redistributables: "),
    }
    message.append(detail);
    message
}

} // verus!
