//! The `docker` commands that manage the shared network and the compose
//! projects.

use vstd::prelude::*;
use crate::action::{Action, Step, push_action};
use crate::cmd;
use crate::config::{config_path, path};
use crate::text::{has_substring, push_str};

verus! {

/// The compose file shared by all projects.
pub open spec fn global_compose_file(home: Seq<char>) -> Seq<char> {
    config_path(home, "projects/global-compose.yaml"@)
}

/// The compose project name of project `name`.
pub open spec fn compose_project(name: Seq<char>) -> Seq<char> {
    name + "-test"@
}

/// The arguments that start the shared services.
pub open spec fn global_up_args(home: Seq<char>) -> Seq<Seq<char>> {
    seq!["compose"@, "-f"@, global_compose_file(home), "-p"@, "easily"@, "up"@, "-d"@]
}

/// The arguments that start the services of project `name` from `yaml`.
pub open spec fn project_up_args(home: Seq<char>, name: Seq<char>, yaml: Seq<char>) -> Seq<
    Seq<char>,
> {
    seq![
        "compose"@,
        "-f"@,
        config_path(home, yaml),
        "-p"@,
        compose_project(name),
        "up"@,
        "-d"@,
    ]
}

/// The arguments that kill the services of project `name` from `yaml`.
pub open spec fn project_kill_args(home: Seq<char>, name: Seq<char>, yaml: Seq<char>) -> Seq<
    Seq<char>,
> {
    seq!["compose"@, "-f"@, config_path(home, yaml), "-p"@, compose_project(name), "kill"@]
}

/// The arguments that kill the shared services.
pub open spec fn global_kill_args(home: Seq<char>) -> Seq<Seq<char>> {
    seq!["compose"@, "-f"@, global_compose_file(home), "-p"@, "easily"@, "kill"@]
}

/// The steps that start the shared services and then those of the project.
pub open spec fn start_steps(home: Seq<char>, name: Seq<char>, yaml: Seq<char>) -> Seq<Step> {
    seq![
        Step::RunChecked("docker"@, global_up_args(home)),
        Step::RunChecked("docker"@, project_up_args(home, name, yaml)),
    ]
}

/// The steps that kill the services of a project.
pub open spec fn stop_steps(home: Seq<char>, name: Seq<char>, yaml: Seq<char>) -> Seq<Step> {
    seq![Step::RunChecked("docker"@, project_kill_args(home, name, yaml))]
}

/// The steps that kill the shared services.
pub open spec fn halt_steps(home: Seq<char>) -> Seq<Step> {
    seq![Step::RunChecked("docker"@, global_kill_args(home))]
}

/// The steps that make the network `name` unless it exists.
pub open spec fn network_steps(name: Seq<char>, exists: bool) -> Seq<Step> {
    if exists {
        Seq::empty()
    } else {
        seq![
            Step::Say(name + " network not found, creating it"@),
            Step::Spawn("docker"@, seq!["network"@, "create"@, name, "--attachable"@]),
        ]
    }
}

/// Stopping a project kills (`compose ... kill`) the compose project that
/// starting it brought up (`compose ... up -d`): the same compose file
/// (`-f`) and the same project name (`-p`); halting kills the shared compose
/// project that starting brought up first.
pub proof fn law_stop_and_halt_match_start(home: Seq<char>, name: Seq<char>, yaml: Seq<char>)
    ensures
        ({
            let up = start_steps(home, name, yaml);
            let down = stop_steps(home, name, yaml);
            let halted = halt_steps(home);
            &&& up[0] matches Step::RunChecked(_, shared_up)
            &&& up[1] matches Step::RunChecked(_, project_up)
            &&& down[0] matches Step::RunChecked(_, project_kill)
            &&& halted[0] matches Step::RunChecked(_, shared_kill)
            &&& project_up[1] == "-f"@ && project_kill[1] == "-f"@
            &&& project_up[3] == "-p"@ && project_kill[3] == "-p"@
            &&& project_up[2] == project_kill[2] && project_up[4] == project_kill[4]
            &&& project_up[5] == "up"@ && project_kill[5] == "kill"@
            &&& shared_up[1] == "-f"@ && shared_kill[1] == "-f"@
            &&& shared_up[3] == "-p"@ && shared_kill[3] == "-p"@
            &&& shared_up[2] == shared_kill[2] && shared_up[4] == shared_kill[4]
            &&& shared_up[5] == "up"@ && shared_kill[5] == "kill"@
        }),
{
}

/// The plan that lists the running containers.
pub fn ps() -> (plan: Vec<Action>)
    ensures
        plan.deep_view() == seq![Step::RunChecked("docker"@, seq!["ps"@])],
{
    let args = vec!["ps".to_owned()];
    assert(args.deep_view() =~= seq!["ps"@]);
    let plan = vec![Action::RunChecked("docker".to_owned(), args)];
    assert(plan.deep_view() =~= seq![Step::RunChecked("docker"@, seq!["ps"@])]);
    plan
}

/// The `docker` arguments that list the networks, one name per line.
pub fn network_list_args() -> (args: Vec<String>)
    ensures
        args.deep_view() == seq!["network"@, "ls"@, "--format"@, "\"{{.Name}}\""@],
{
    let args = vec![
        "network".to_owned(),
        "ls".to_owned(),
        "--format".to_owned(),
        "\"{{.Name}}\"".to_owned(),
    ];
    assert(args.deep_view() =~= seq!["network"@, "ls"@, "--format"@, "\"{{.Name}}\""@]);
    args
}

/// Whether the network `name` shows in `listing`: the lines that `grep name`
/// kept of the output of `docker` run with `network_list_args`.
pub fn network_exists(listing: &str, name: &str) -> (b: bool)
    ensures
        b == has_substring(listing@, name@),
{
    cmd::grep(listing, name)
}

/// The plan that makes the network `name` unless it exists.
pub fn create_network_if_it_doesnt_exist(name: &str, exists: bool) -> (plan: Vec<Action>)
    ensures
        plan.deep_view() == network_steps(name@, exists),
{
    let mut plan: Vec<Action> = Vec::new();
    if exists {
        assert(plan.deep_view() =~= network_steps(name@, exists));
        return plan;
    }
    let mut line = String::new();
    push_str(&mut line, name);
    push_str(&mut line, " network not found, creating it");
    assert(line@ =~= name@ + " network not found, creating it"@);
    push_action(&mut plan, Action::Say(line));
    let args = vec![
        "network".to_owned(),
        "create".to_owned(),
        name.to_owned(),
        "--attachable".to_owned(),
    ];
    assert(args.deep_view() =~= seq!["network"@, "create"@, name@, "--attachable"@]);
    push_action(&mut plan, Action::Spawn("docker".to_owned(), args));
    assert(plan.deep_view() =~= network_steps(name@, exists));
    plan
}

fn project_name(name: &str) -> (res: String)
    ensures
        res@ == compose_project(name@),
{
    let mut res = String::new();
    push_str(&mut res, name);
    push_str(&mut res, "-test");
    assert(res@ =~= compose_project(name@));
    res
}

/// The plan that starts the shared services, then those of project `name`
/// described by the compose file `yaml` (relative to the configuration
/// folder under `home`).
pub fn start(home: &str, name: &str, yaml: &str) -> (plan: Vec<Action>)
    ensures
        plan.deep_view() == start_steps(home@, name@, yaml@),
{
    let global = path(home, "projects/global-compose.yaml");
    let global_args = vec![
        "compose".to_owned(),
        "-f".to_owned(),
        global,
        "-p".to_owned(),
        "easily".to_owned(),
        "up".to_owned(),
        "-d".to_owned(),
    ];
    assert(global_args.deep_view() =~= global_up_args(home@));
    let project_args = vec![
        "compose".to_owned(),
        "-f".to_owned(),
        path(home, yaml),
        "-p".to_owned(),
        project_name(name),
        "up".to_owned(),
        "-d".to_owned(),
    ];
    assert(project_args.deep_view() =~= project_up_args(home@, name@, yaml@));
    let plan = vec![
        Action::RunChecked("docker".to_owned(), global_args),
        Action::RunChecked("docker".to_owned(), project_args),
    ];
    assert(plan.deep_view() =~= start_steps(home@, name@, yaml@));
    plan
}

/// The plan that kills the services of project `name` described by `yaml`.
pub fn stop(home: &str, name: &str, yaml: &str) -> (plan: Vec<Action>)
    ensures
        plan.deep_view() == stop_steps(home@, name@, yaml@),
{
    let args = vec![
        "compose".to_owned(),
        "-f".to_owned(),
        path(home, yaml),
        "-p".to_owned(),
        project_name(name),
        "kill".to_owned(),
    ];
    assert(args.deep_view() =~= project_kill_args(home@, name@, yaml@));
    let plan = vec![Action::RunChecked("docker".to_owned(), args)];
    assert(plan.deep_view() =~= stop_steps(home@, name@, yaml@));
    plan
}

/// The plan that kills the shared services.
pub fn halt(home: &str) -> (plan: Vec<Action>)
    ensures
        plan.deep_view() == halt_steps(home@),
{
    let args = vec![
        "compose".to_owned(),
        "-f".to_owned(),
        path(home, "projects/global-compose.yaml"),
        "-p".to_owned(),
        "easily".to_owned(),
        "kill".to_owned(),
    ];
    assert(args.deep_view() =~= global_kill_args(home@));
    let plan = vec![Action::RunChecked("docker".to_owned(), args)];
    assert(plan.deep_view() =~= halt_steps(home@));
    plan
}

} // verus!
