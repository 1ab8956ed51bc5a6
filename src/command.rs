use vstd::prelude::*;
use vstd::string::*;

verus! {

/// A package manager invocation: the program and its arguments.
#[derive(Clone, Debug)]
pub struct Command {
    pub program: String,
    pub args: Vec<String>,
}

/// The abstract form of a command line: the program and its arguments as text.
pub struct CommandLine {
    pub program: Seq<char>,
    pub args: Seq<Seq<char>>,
}

/// The text of each string in a sequence.
pub open spec fn texts(v: Seq<String>) -> Seq<Seq<char>> {
    v.map_values(|s: String| s@)
}

impl View for Command {
    type V = CommandLine;

    open spec fn view(&self) -> CommandLine {
        CommandLine { program: self.program@, args: texts(self.args@) }
    }
}

/// The package manager's executable.
pub open spec fn nix_program() -> Seq<char> {
    "nix"@
}

/// The flag that allows impure evaluation.
pub open spec fn impure_flag() -> Seq<char> {
    "--impure"@
}

/// The flake reference of a package in the package registry.
pub open spec fn registry_ref(pkg: Seq<char>) -> Seq<char> {
    "nixpkgs#"@ + pkg
}

/// The fully qualified attribute path of a package in the user profile.
pub open spec fn attribute_path(pkg: Seq<char>) -> Seq<char> {
    "legacyPackages.x86_64-linux."@ + pkg
}

/// `nix profile install nixpkgs#<pkg> --impure`
pub open spec fn install_line(pkg: Seq<char>) -> CommandLine {
    CommandLine {
        program: nix_program(),
        args: seq!["profile"@, "install"@, registry_ref(pkg), impure_flag()],
    }
}

/// `nix profile remove legacyPackages.x86_64-linux.<pkg>`
pub open spec fn remove_line(pkg: Seq<char>) -> CommandLine {
    CommandLine { program: nix_program(), args: seq!["profile"@, "remove"@, attribute_path(pkg)] }
}

/// `nix profile remove <attribute path of each package> --impure`
pub open spec fn remove_all_line(pkgs: Seq<Seq<char>>) -> CommandLine {
    CommandLine {
        program: nix_program(),
        args: seq!["profile"@, "remove"@] + pkgs.map_values(|p: Seq<char>| attribute_path(p)) + seq![
            impure_flag(),
        ],
    }
}

/// `nix profile upgrade .* --impure`
pub open spec fn upgrade_line() -> CommandLine {
    CommandLine { program: nix_program(), args: seq!["profile"@, "upgrade"@, ".*"@, impure_flag()] }
}

fn nix(args: Vec<String>) -> (r: Command)
    ensures
        r@ == (CommandLine { program: nix_program(), args: texts(args@) }),
{
    Command { program: String::from_str("nix"), args }
}

fn prefixed(prefix: &str, pkg: &str) -> (r: String)
    ensures
        r@ == prefix@ + pkg@,
{
    let mut s = String::from_str(prefix);
    s.append(pkg);
    s
}

/// The command that installs `pkg` into the user profile.
pub fn install_command(pkg: &str) -> (r: Command)
    ensures
        r@ == install_line(pkg@),
{
    let args = vec![
        String::from_str("profile"),
        String::from_str("install"),
        prefixed("nixpkgs#", pkg),
        String::from_str("--impure"),
    ];
    let r = nix(args);
    assert(r@.args =~= install_line(pkg@).args);
    r
}

/// The command that removes `pkg` from the user profile.
pub fn remove_command(pkg: &str) -> (r: Command)
    ensures
        r@ == remove_line(pkg@),
{
    let args = vec![
        String::from_str("profile"),
        String::from_str("remove"),
        prefixed("legacyPackages.x86_64-linux.", pkg),
    ];
    let r = nix(args);
    assert(r@.args =~= remove_line(pkg@).args);
    r
}

/// The command that removes every package of `pkgs` from the user profile in one run.
pub fn remove_all_command(pkgs: &Vec<String>) -> (r: Command)
    ensures
        r@ == remove_all_line(texts(pkgs@)),
{
    let mut args: Vec<String> = vec![String::from_str("profile"), String::from_str("remove")];
    let ghost paths = texts(pkgs@).map_values(|p: Seq<char>| attribute_path(p));
    for i in 0..pkgs.len()
        invariant
            paths == texts(pkgs@).map_values(|p: Seq<char>| attribute_path(p)),
            texts(args@) =~= seq!["profile"@, "remove"@] + paths.subrange(0, i as int),
    {
        let path = prefixed("legacyPackages.x86_64-linux.", pkgs[i].as_str());
        let ghost before = args@;
        args.push(path);
        assert(texts(args@) =~= texts(before).push(path@));
        assert(paths.subrange(0, i + 1) =~= paths.subrange(0, i as int).push(paths[i as int]));
    }
    args.push(String::from_str("--impure"));
    let r = nix(args);
    assert(paths.subrange(0, pkgs.len() as int) =~= paths);
    assert(r@.args =~= remove_all_line(texts(pkgs@)).args);
    r
}

/// The command that upgrades every package of the user profile.
pub fn upgrade_command() -> (r: Command)
    ensures
        r@ == upgrade_line(),
{
    let args = vec![
        String::from_str("profile"),
        String::from_str("upgrade"),
        String::from_str(".*"),
        String::from_str("--impure"),
    ];
    let r = nix(args);
    assert(r@.args =~= upgrade_line().args);
    r
}

} // verus!
