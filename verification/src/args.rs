//! The command-line surface, as plain data. The binary parses its arguments
//! into these types and dispatches on them; no logic lives here.

use vstd::prelude::*;

verus! {

/// Top-level command.
#[derive(Debug)]
pub struct EC2connector {
    pub entity_type: EntityType,
}

/// What the invocation asks for.
#[derive(Debug)]
pub enum EntityType {
    /// Connect to an existing resource, starting it first if needed.
    Connect(ConnectCommand),
    /// Create a new resource.
    Create(CreateCommand),
    /// Stop a resource and close the connection.
    Stop(StopCommand),
    /// Configure credentials.
    Config(ConfigCommand),
    /// List available resources.
    List(ListCommand),
    /// Update the tool itself.
    Update,
}

#[derive(Debug)]
pub struct ConnectCommand {
    pub command: ConnectSubCommand,
}

#[derive(Debug)]
pub enum ConnectSubCommand {
    /// Connect to a named compute resource.
    Ec2(Ec2ConnectCommand),
    /// Connect to a graph-database endpoint.
    Neptune,
}

#[derive(Debug)]
pub struct Ec2ConnectCommand {
    pub ec2_name: String,
}

#[derive(Debug)]
pub struct CreateCommand {
    pub command: CreateSubCommand,
}

#[derive(Debug)]
pub enum CreateSubCommand {
    /// Create a fresh resource interactively.
    NewEc2,
    /// Create a copy of an existing resource.
    CopyOf(CreateCopyOfCommand),
}

#[derive(Debug)]
pub struct CreateCopyOfCommand {
    pub ec2_name: String,
}

#[derive(Debug)]
pub struct ConfigCommand {
    pub command: ConfigSubCommand,
}

#[derive(Debug)]
pub enum ConfigSubCommand {
    /// Configure provider credentials.
    Aws,
    /// Configure source-hosting credentials.
    Github,
}

#[derive(Debug)]
pub struct GithubConfig {
    pub command: GithubConfigCommand,
}

#[derive(Debug)]
pub enum GithubConfigCommand {
    PATToken(PATTokenCommand),
    Email(EmailCommand),
    UserName(UserNameCommand),
}

#[derive(Debug)]
pub struct PATTokenCommand {
    pub token: String,
}

#[derive(Debug)]
pub struct EmailCommand {
    pub email: String,
}

#[derive(Debug)]
pub struct UserNameCommand {
    pub username: String,
}

#[derive(Debug)]
pub struct StopCommand {
    pub command: StopSubCommand,
}

#[derive(Debug)]
pub enum StopSubCommand {
    /// Stop a compute resource.
    Ec2(Ec2StopCommand),
    /// Stop a graph-database instance.
    Neptune(NeptuneStopCommand),
}

#[derive(Debug)]
pub struct Ec2StopCommand {
    pub ec2_name: String,
}

#[derive(Debug)]
pub struct NeptuneStopCommand {
    pub neptune_name: String,
}

#[derive(Debug)]
pub struct ListCommand {
    pub command: ListSubCommand,
}

#[derive(Debug)]
pub enum ListSubCommand {
    /// List compute resources.
    Ec2,
    /// List graph-database clusters.
    Neptune,
    /// Show source-hosting configuration.
    Github,
}

} // verus!
