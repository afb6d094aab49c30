use vstd::prelude::*;

verus! {

/// The verbs of the command line.
#[allow(non_camel_case_types)]
#[derive(Debug, Clone, Copy, PartialEq, Eq, Structural)]
pub enum Verbs {
    create,
    delete,
    edit,
    get,
    set,
}

impl Verbs {
    /// The word by which the command line names this item.
    pub open spec fn spec_name(self) -> Seq<char> {
        match self {
            Verbs::create => "create"@,
            Verbs::delete => "delete"@,
            Verbs::edit => "edit"@,
            Verbs::get => "get"@,
            Verbs::set => "set"@,
        }
    }

    /// The word by which the command line names this item.
    pub fn as_str(&self) -> (r: &'static str)
        ensures
            r@ == self.spec_name(),
    {
        match self {
            Verbs::create => "create",
            Verbs::delete => "delete",
            Verbs::edit => "edit",
            Verbs::get => "get",
            Verbs::set => "set",
        }
    }
}

/// What `set` can change.
#[allow(non_camel_case_types)]
#[derive(Debug, Clone, Copy, PartialEq, Eq, Structural)]
pub enum Set_targets {
    gateway,
    password,
}

impl Set_targets {
    /// The word by which the command line names this item.
    pub open spec fn spec_name(self) -> Seq<char> {
        match self {
            Set_targets::gateway => "gateway"@,
            Set_targets::password => "password"@,
        }
    }

    /// The word by which the command line names this item.
    pub fn as_str(&self) -> (r: &'static str)
        ensures
            r@ == self.spec_name(),
    {
        match self {
            Set_targets::gateway => "gateway",
            Set_targets::password => "password",
        }
    }
}

/// The arguments of `set`.
#[allow(non_camel_case_types)]
#[derive(Debug, Clone, Copy, PartialEq, Eq, Structural)]
pub enum Set_args {
    username,
}

impl Set_args {
    /// The word by which the command line names this item.
    pub open spec fn spec_name(self) -> Seq<char> {
        match self {
            Set_args::username => "username"@,
        }
    }

    /// The word by which the command line names this item.
    pub fn as_str(&self) -> (r: &'static str)
        ensures
            r@ == self.spec_name(),
    {
        match self {
            Set_args::username => "username",
        }
    }
}

/// The resources the command line manages.
#[allow(non_camel_case_types)]
#[derive(Debug, Clone, Copy, PartialEq, Eq, Structural)]
pub enum Resources {
    device,
    devices,
    app,
    apps,
}

impl Resources {
    /// The word by which the command line names this item.
    pub open spec fn spec_name(self) -> Seq<char> {
        match self {
            Resources::device => "device"@,
            Resources::devices => "devices"@,
            Resources::app => "app"@,
            Resources::apps => "apps"@,
        }
    }

    /// The word by which the command line names this item.
    pub fn as_str(&self) -> (r: &'static str)
        ensures
            r@ == self.spec_name(),
    {
        match self {
            Resources::device => "device",
            Resources::devices => "devices",
            Resources::app => "app",
            Resources::apps => "apps",
        }
    }
}

/// The named parameters of the command line.
#[allow(non_camel_case_types)]
#[derive(Debug, Clone, Copy, PartialEq, Eq, Structural)]
pub enum Parameters {
    url,
    id,
    spec,
    config,
    filename,
    context,
    keep_current,
    labels,
    context_name,
    key_output,
    ca_key,
    out,
    days,
}

impl Parameters {
    /// The word by which the command line names this item.
    pub open spec fn spec_name(self) -> Seq<char> {
        match self {
            Parameters::url => "url"@,
            Parameters::id => "id"@,
            Parameters::spec => "spec"@,
            Parameters::config => "config"@,
            Parameters::filename => "filename"@,
            Parameters::context => "context"@,
            Parameters::keep_current => "keep-current"@,
            Parameters::labels => "labels"@,
            Parameters::context_name => "context_name"@,
            Parameters::key_output => "key-output"@,
            Parameters::ca_key => "ca-key"@,
            Parameters::out => "out"@,
            Parameters::days => "days"@,
        }
    }

    /// The word by which the command line names this item.
    pub fn as_str(&self) -> (r: &'static str)
        ensures
            r@ == self.spec_name(),
    {
        match self {
            Parameters::url => "url",
            Parameters::id => "id",
            Parameters::spec => "spec",
            Parameters::config => "config",
            Parameters::filename => "filename",
            Parameters::context => "context",
            Parameters::keep_current => "keep-current",
            Parameters::labels => "labels",
            Parameters::context_name => "context_name",
            Parameters::key_output => "key-output",
            Parameters::ca_key => "ca-key",
            Parameters::out => "out",
            Parameters::days => "days",
        }
    }
}

/// The commands that act on no resource.
#[allow(non_camel_case_types)]
#[derive(Debug, Clone, Copy, PartialEq, Eq, Structural)]
pub enum Other_commands {
    login,
    token,
    version,
    whoami,
    context,
    trust,
}

impl Other_commands {
    /// The word by which the command line names this item.
    pub open spec fn spec_name(self) -> Seq<char> {
        match self {
            Other_commands::login => "login"@,
            Other_commands::token => "token"@,
            Other_commands::version => "version"@,
            Other_commands::whoami => "whoami"@,
            Other_commands::context => "context"@,
            Other_commands::trust => "trust"@,
        }
    }

    /// The word by which the command line names this item.
    pub fn as_str(&self) -> (r: &'static str)
        ensures
            r@ == self.spec_name(),
    {
        match self {
            Other_commands::login => "login",
            Other_commands::token => "token",
            Other_commands::version => "version",
            Other_commands::whoami => "whoami",
            Other_commands::context => "context",
            Other_commands::trust => "trust",
        }
    }
}

/// The subcommands of `context`.
#[allow(non_camel_case_types)]
#[derive(Debug, Clone, Copy, PartialEq, Eq, Structural)]
pub enum Context_subcommands {
    list,
    show,
    set_active,
    delete,
    create,
    set_default_app,
    rename,
}

impl Context_subcommands {
    /// The word by which the command line names this item.
    pub open spec fn spec_name(self) -> Seq<char> {
        match self {
            Context_subcommands::list => "list"@,
            Context_subcommands::show => "show"@,
            Context_subcommands::set_active => "set-active"@,
            Context_subcommands::delete => "delete"@,
            Context_subcommands::create => "create"@,
            Context_subcommands::set_default_app => "set-default-app"@,
            Context_subcommands::rename => "rename"@,
        }
    }

    /// The word by which the command line names this item.
    pub fn as_str(&self) -> (r: &'static str)
        ensures
            r@ == self.spec_name(),
    {
        match self {
            Context_subcommands::list => "list",
            Context_subcommands::show => "show",
            Context_subcommands::set_active => "set-active",
            Context_subcommands::delete => "delete",
            Context_subcommands::create => "create",
            Context_subcommands::set_default_app => "set-default-app",
            Context_subcommands::rename => "rename",
        }
    }
}

/// The subcommands of `trust`.
#[allow(non_camel_case_types)]
#[derive(Debug, Clone, Copy, PartialEq, Eq, Structural)]
pub enum Trust_subcommands {
    create,
    add,
}

impl Trust_subcommands {
    /// The word by which the command line names this item.
    pub open spec fn spec_name(self) -> Seq<char> {
        match self {
            Trust_subcommands::create => "create"@,
            Trust_subcommands::add => "add"@,
        }
    }

    /// The word by which the command line names this item.
    pub fn as_str(&self) -> (r: &'static str)
        ensures
            r@ == self.spec_name(),
    {
        match self {
            Trust_subcommands::create => "create",
            Trust_subcommands::add => "add",
        }
    }
}

/// The global flags.
#[allow(non_camel_case_types)]
#[derive(Debug, Clone, Copy, PartialEq, Eq, Structural)]
pub enum Other_flags {
    verbosity,
    cert,
}

impl Other_flags {
    /// The word by which the command line names this item.
    pub open spec fn spec_name(self) -> Seq<char> {
        match self {
            Other_flags::verbosity => "verbosity"@,
            Other_flags::cert => "cert"@,
        }
    }

    /// The word by which the command line names this item.
    pub fn as_str(&self) -> (r: &'static str)
        ensures
            r@ == self.spec_name(),
    {
        match self {
            Other_flags::verbosity => "verbosity",
            Other_flags::cert => "cert",
        }
    }
}

} // verus!
