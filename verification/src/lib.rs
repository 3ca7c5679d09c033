//! A protocol adapter gateway: one internal stream of normalized chat-platform
//! events and one action-invocation mechanism, exposed over several wire
//! transports (a socket server, an outward-connecting socket client, a
//! synchronous request listener, and an outbound event forwarder).
//!
//! The gateway owns an event bus and an action registry.  Every transport
//! subscribes independently to the bus and forwards each event it observes as
//! a serialized frame; transports that accept inbound frames parse each one as
//! an action request, dispatch it through the registry, and write the response
//! back over the channel it arrived on.
use vstd::prelude::*;

pub mod action;
pub mod bus;
pub mod codec;
pub mod comm;
pub mod config;
pub mod event;
pub mod message;

pub use action::ActionRegistry;
pub use comm::CommConfig;
pub use config::ConfigFile;
pub use event::{Event, EventContent};
pub use message::{Message, MessageSegment};

verus! {

/// A chat account identity, as stamped on events and message senders.
#[derive(Clone, Debug)]
pub struct User {
    pub id: String,
    pub username: String,
    pub nickname: String,
    pub display_name: String,
    pub extended: Vec<(String, String)>,
}

/// Mathematical view of a [`User`].
pub struct UserView {
    pub id: Seq<char>,
    pub username: Seq<char>,
    pub nickname: Seq<char>,
    pub display_name: Seq<char>,
    pub extended: Seq<(Seq<char>, Seq<char>)>,
}

impl View for User {
    type V = UserView;

    open spec fn view(&self) -> UserView {
        UserView {
            id: self.id@,
            username: self.username@,
            nickname: self.nickname@,
            display_name: self.display_name@,
            extended: pair_views(self.extended@),
        }
    }
}

impl User {
    pub fn new(id: &str) -> (u: User)
        ensures
            u@.id == id@,
            u@.username == Seq::<char>::empty(),
            u@.nickname == Seq::<char>::empty(),
            u@.display_name == Seq::<char>::empty(),
            u@.extended == Seq::<(Seq<char>, Seq<char>)>::empty(),
    {
        let u = User {
            id: id.to_owned(),
            username: String::new(),
            nickname: String::new(),
            display_name: String::new(),
            extended: Vec::new(),
        };
        proof {
            assert(u@.extended =~= Seq::<(Seq<char>, Seq<char>)>::empty());
        }
        u
    }
}

/// The views of a sequence of key/value pairs, in order.
pub open spec fn pair_views(s: Seq<(String, String)>) -> Seq<(Seq<char>, Seq<char>)> {
    s.map_values(|p: (String, String)| (p.0@, p.1@))
}

/// An exact copy of a key/value pair list.
fn clone_pairs(v: &Vec<(String, String)>) -> (r: Vec<(String, String)>)
    ensures
        pair_views(r@) == pair_views(v@),
{
    let mut r: Vec<(String, String)> = Vec::new();
    let mut i: usize = 0;
    while i < v.len()
        invariant
            i <= v.len(),
            r@.len() == i,
            pair_views(r@) =~= pair_views(v@).take(i as int),
        decreases v.len() - i,
    {
        let (k, val) = &v[i];
        r.push((k.clone(), val.clone()));
        proof {
            assert(pair_views(r@) =~= pair_views(v@).take(i as int + 1));
        }
        i = i + 1;
    }
    proof {
        assert(pair_views(v@).take(v@.len() as int) =~= pair_views(v@));
    }
    r
}

impl User {
    /// An exact copy of this identity.
    pub fn duplicate(&self) -> (r: User)
        ensures
            r@ == self@,
    {
        User {
            id: self.id.clone(),
            username: self.username.clone(),
            nickname: self.nickname.clone(),
            display_name: self.display_name.clone(),
            extended: clone_pairs(&self.extended),
        }
    }
}

/// A chat group (the source of group messages).
#[derive(Clone, Debug)]
pub struct Group {
    pub id: String,
    pub name: String,
    pub extended: Vec<(String, String)>,
}

/// Mathematical view of a [`Group`].
pub struct GroupView {
    pub id: Seq<char>,
    pub name: Seq<char>,
    pub extended: Seq<(Seq<char>, Seq<char>)>,
}

impl View for Group {
    type V = GroupView;

    open spec fn view(&self) -> GroupView {
        GroupView {
            id: self.id@,
            name: self.name@,
            extended: pair_views(self.extended@),
        }
    }
}

impl Group {
    pub fn new(id: &str, name: &str) -> (g: Group)
        ensures
            g@.id == id@,
            g@.name == name@,
            g@.extended == Seq::<(Seq<char>, Seq<char>)>::empty(),
    {
        let g = Group { id: id.to_owned(), name: name.to_owned(), extended: Vec::new() };
        proof {
            assert(g@.extended =~= Seq::<(Seq<char>, Seq<char>)>::empty());
        }
        g
    }
}

/// Where the gateway stands in its lifetime.  Together with
/// [`OneBot::configured`] this spans the whole lifecycle: in `Setup` the
/// gateway is unconfigured until identity and transport set are established,
/// then configured; `start_run` moves it to `Running`; `shutdown` to
/// `ShuttingDown`; and, once every transport task has wound down,
/// `finish_shutdown` to `Stopped`.
#[derive(Clone, Copy, PartialEq, Eq, Structural, Debug)]
pub enum GatewayPhase {
    Setup,
    Running,
    ShuttingDown,
    Stopped,
}

/// What the caller runs after a successful entry into the run phase: the
/// heartbeat to drive, if any, and the log sink to install.
#[derive(Debug)]
pub struct RunPlan {
    pub heartbeat: Option<u32>,
    pub log: config::Log,
}

/// The gateway: owns the event bus and the action registry, carries the
/// platform identity, and supervises the configured transports.  `H` is the
/// action handler type shared by every registry entry.
pub struct OneBot<H> {
    pub platform: String,
    pub self_user: Option<User>,
    pub config: Option<config::Config>,
    pub action_handlers: action::ActionRegistry<H>,
    pub comms: Vec<(String, comm::CommConfig)>,
    pub bus: bus::EventBus<event::Event>,
    pub phase: GatewayPhase,
}

impl<H> OneBot<H> {
    /// The gateway's internal invariant: registry and transport names are
    /// unique, and the bus is well formed.
    pub open spec fn wf(&self) -> bool {
        &&& self.action_handlers.wf()
        &&& action::unique_keys(self.comms@)
        &&& self.bus.wf()
    }

    /// The configured transports, by name.
    pub open spec fn comms_map(&self) -> Map<Seq<char>, comm::CommConfig> {
        action::map_of(self.comms@)
    }

    /// Whether the identity needed for the run phase is established.
    pub open spec fn has_self_id_spec(&self) -> bool {
        match self.self_user {
            Some(u) => u.id@.len() > 0,
            None => false,
        }
    }

    /// Identity, configuration and transport set are what `start_run` needs.
    pub open spec fn configured(&self) -> bool {
        &&& self.platform@.len() > 0
        &&& self.has_self_id_spec()
        &&& self.config is Some
    }

    /// A fresh gateway for the given platform, with a bus of the given
    /// capacity, no identity, no configuration, and nothing registered.
    pub fn new(platform: &str, capacity: usize) -> (ob: OneBot<H>)
        requires
            capacity >= 1,
        ensures
            ob.wf(),
            ob.platform@ == platform@,
            ob.self_user is None,
            ob.config is None,
            ob.action_handlers@ == Map::<Seq<char>, H>::empty(),
            ob.comms_map() == Map::<Seq<char>, comm::CommConfig>::empty(),
            ob.bus.cap() == capacity,
            ob.bus.total() == 0,
            ob.phase == GatewayPhase::Setup,
    {
        OneBot {
            platform: platform.to_owned(),
            self_user: None,
            config: None,
            action_handlers: action::ActionRegistry::new(),
            comms: Vec::new(),
            bus: bus::EventBus::new(capacity),
            phase: GatewayPhase::Setup,
        }
    }

    /// Establishes the bot's own identity.
    pub fn set_self_id(&mut self, id: &str)
        ensures
            *final(self) == (OneBot { self_user: final(self).self_user, ..*old(self) }),
            final(self).self_user matches Some(u) && u@ == (UserView {
                id: id@,
                username: Seq::<char>::empty(),
                nickname: Seq::<char>::empty(),
                display_name: Seq::<char>::empty(),
                extended: Seq::<(Seq<char>, Seq<char>)>::empty(),
            }),
    {
        self.self_user = Some(User::new(id));
    }

    pub fn has_self_id(&self) -> (r: bool)
        ensures
            r == self.has_self_id_spec(),
    {
        match &self.self_user {
            Some(user) => user.id.unicode_len() > 0,
            None => false,
        }
    }

    /// A copy of the current configuration, if any.
    pub fn config(&self) -> (r: Option<config::Config>)
        ensures
            r == self.config,
    {
        match &self.config {
            Some(c) => Some(c.duplicate()),
            None => None,
        }
    }

    pub fn set_config(&mut self, new_config: config::Config)
        ensures
            *final(self) == (OneBot { config: Some(new_config), ..*old(self) }),
    {
        self.config = Some(new_config);
    }

    pub fn set_default_config(&mut self)
        ensures
            *final(self) == (OneBot { config: final(self).config, ..*old(self) }),
            final(self).config matches Some(c) && c.auth.access_token is None && c.heartbeat
                is None && c.log.output == config::LogOutput::Stderr && config::opt_str_view(
                c.log.path,
            ) == Some("./onebot.log"@) && c.log.level == config::LogLevel::Info,
    {
        self.config = Some(config::Config::new());
    }

    /// A copy of the authentication section, if configured.
    pub fn auth(&self) -> (r: Option<config::Auth>)
        ensures
            match self.config {
                Some(c) => r == Some(c.auth),
                None => r is None,
            },
    {
        match &self.config {
            Some(c) => Some(
                config::Auth {
                    access_token: match &c.auth.access_token {
                        Some(t) => Some(t.clone()),
                        None => None,
                    },
                },
            ),
            None => None,
        }
    }

    /// The configured access token, if any.
    pub fn access_token(&self) -> (r: Option<String>)
        ensures
            match self.config {
                Some(c) => r == c.auth.access_token,
                None => r is None,
            },
    {
        match &self.config {
            Some(c) => match &c.auth.access_token {
                Some(t) => Some(t.clone()),
                None => None,
            },
            None => None,
        }
    }

    /// Sets the access token, keeping the rest of the configuration (or the
    /// defaults, when none was set yet).
    pub fn set_access_token(&mut self, access_token: &str)
        ensures
            *final(self) == (OneBot { config: final(self).config, ..*old(self) }),
            final(self).config matches Some(c) && config::opt_str_view(c.auth.access_token)
                == Some(access_token@) && (match old(self).config {
                Some(o) => c.heartbeat == o.heartbeat && c.log == o.log,
                None => c.heartbeat is None && c.log.output == config::LogOutput::Stderr
                    && config::opt_str_view(c.log.path) == Some("./onebot.log"@) && c.log.level
                    == config::LogLevel::Info,
            }),
    {
        let mut c = match &self.config {
            Some(c) => c.duplicate(),
            None => config::Config::new(),
        };
        c.auth.access_token = Some(access_token.to_owned());
        self.config = Some(c);
    }

    pub fn has_access_token(&self) -> (r: bool)
        ensures
            r == match self.config {
                Some(c) => c.auth.access_token is Some,
                None => false,
            },
    {
        match &self.config {
            Some(c) => c.auth.access_token.is_some(),
            None => false,
        }
    }

    /// The configured heartbeat interval, if enabled.
    pub fn heartbeat_interval(&self) -> (r: Option<u32>)
        ensures
            r == match self.config {
                Some(c) => c.heartbeat,
                None => None::<u32>,
            },
    {
        match &self.config {
            Some(c) => c.heartbeat,
            None => None,
        }
    }

    /// Enables the heartbeat at the given interval, keeping the rest of the
    /// configuration (or the defaults, when none was set yet).
    pub fn enable_heartbeat(&mut self, interval: u32)
        ensures
            *final(self) == (OneBot { config: final(self).config, ..*old(self) }),
            final(self).config matches Some(c) && c.heartbeat == Some(interval) && (match old(
                self,
            ).config {
                Some(o) => c.auth == o.auth && c.log == o.log,
                None => c.auth.access_token is None && c.log.output == config::LogOutput::Stderr
                    && config::opt_str_view(c.log.path) == Some("./onebot.log"@) && c.log.level
                    == config::LogLevel::Info,
            }),
    {
        let mut c = match &self.config {
            Some(c) => c.duplicate(),
            None => config::Config::new(),
        };
        c.heartbeat = Some(interval);
        self.config = Some(c);
    }

    pub fn heartbeat_enabled(&self) -> (r: bool)
        ensures
            r == match self.config {
                Some(c) => c.heartbeat is Some,
                None => false,
            },
    {
        match &self.config {
            Some(c) => c.heartbeat.is_some(),
            None => false,
        }
    }

    /// Points terminal logging at stderr, keeping the rest of the
    /// configuration (or the defaults, when none was set yet).
    pub fn log_to_stderr(&mut self)
        ensures
            *final(self) == (OneBot { config: final(self).config, ..*old(self) }),
            final(self).config matches Some(c) && c.log.output == config::LogOutput::Stderr
                && config::kept_but_log_output(old(self).config, c),
    {
        let mut c = match &self.config {
            Some(c) => c.duplicate(),
            None => config::Config::new(),
        };
        c.log.output = config::LogOutput::Stderr;
        self.config = Some(c);
    }

    /// Points terminal logging at stdout, keeping the rest of the
    /// configuration (or the defaults, when none was set yet).
    pub fn log_to_stdout(&mut self)
        ensures
            *final(self) == (OneBot { config: final(self).config, ..*old(self) }),
            final(self).config matches Some(c) && c.log.output == config::LogOutput::Stdout
                && config::kept_but_log_output(old(self).config, c),
    {
        let mut c = match &self.config {
            Some(c) => c.duplicate(),
            None => config::Config::new(),
        };
        c.log.output = config::LogOutput::Stdout;
        self.config = Some(c);
    }

    /// Silences terminal logging, keeping the rest of the configuration (or
    /// the defaults, when none was set yet).
    pub fn log_to_nul(&mut self)
        ensures
            *final(self) == (OneBot { config: final(self).config, ..*old(self) }),
            final(self).config matches Some(c) && c.log.output == config::LogOutput::Nul
                && config::kept_but_log_output(old(self).config, c),
    {
        let mut c = match &self.config {
            Some(c) => c.duplicate(),
            None => config::Config::new(),
        };
        c.log.output = config::LogOutput::Nul;
        self.config = Some(c);
    }

    /// Points file logging at the given path, keeping the rest of the
    /// configuration (or the defaults, when none was set yet).
    pub fn log_to_path(&mut self, path: &str)
        ensures
            *final(self) == (OneBot { config: final(self).config, ..*old(self) }),
            final(self).config matches Some(c) && config::opt_str_view(c.log.path) == Some(path@)
                && config::kept_but_log_path(old(self).config, c),
    {
        let mut c = match &self.config {
            Some(c) => c.duplicate(),
            None => config::Config::new(),
        };
        c.log.path = Some(path.to_owned());
        self.config = Some(c);
    }

    /// Sets the log verbosity, keeping the rest of the configuration (or the
    /// defaults, when none was set yet).
    pub fn set_log_level(&mut self, level: config::LogLevel)
        ensures
            *final(self) == (OneBot { config: final(self).config, ..*old(self) }),
            final(self).config matches Some(c) && c.log.level == level && config::kept_but_log_level(
                old(self).config,
                c,
            ),
    {
        let mut c = match &self.config {
            Some(c) => c.duplicate(),
            None => config::Config::new(),
        };
        c.log.level = level;
        self.config = Some(c);
    }

    /// Adds (or replaces) a named transport.  Consumed at construction time
    /// only; never mutated after the gateway starts running.
    pub fn add_comm(&mut self, name: &str, comm: comm::CommConfig)
        requires
            old(self).wf(),
        ensures
            final(self).wf(),
            *final(self) == (OneBot { comms: final(self).comms, ..*old(self) }),
            final(self).comms_map() == old(self).comms_map().insert(name@, comm),
    {
        action::assoc_insert(&mut self.comms, name, comm);
    }

    /// Replaces configuration and transport set with what an external
    /// configuration file describes: the merged configuration, and one
    /// transport per descriptor, keyed by the file's names (unique, since the
    /// file is a name-keyed table).  A malformed log section or a descriptor
    /// of unknown kind is a fatal configuration error, and the gateway keeps
    /// its previous configuration and transports whole: no partial startup.
    pub fn init_from_file<F: ConfigFile>(&mut self, config_file: &F) -> (r: Result<
        (),
        config::ConfigError,
    >)
        requires
            old(self).wf(),
            match config_file.comm_methods_spec() {
                Some(ms) => action::unique_keys(ms),
                None => true,
            },
        ensures
            final(self).wf(),
            final(self).platform == old(self).platform,
            final(self).self_user == old(self).self_user,
            final(self).action_handlers == old(self).action_handlers,
            final(self).bus == old(self).bus,
            final(self).phase == old(self).phase,
            r is Ok <==> ((match config_file.log_spec() {
                Some(l) => config::log_config_error(l) is None,
                None => true,
            }) && (match config_file.comm_methods_spec() {
                Some(ms) => forall|i: int|
                    0 <= i < ms.len() ==> comm::known_comm_kind((#[trigger] ms[i]).1.kind@),
                None => true,
            })),
            r matches Err(e) ==> ((config_file.log_spec() matches Some(l)
                && config::log_config_error(l) == Some(e)) || e
                == config::ConfigError::UnknownCommType),
            r is Ok ==> (final(self).config matches Some(c) && {
                &&& config::opt_str_view(c.auth.access_token) == config::merged_token(
                    config_file.auth_spec(),
                )
                &&& c.heartbeat == config::merged_heartbeat(config_file.heartbeat_spec())
                &&& c.log.output == config::merged_output(config_file.log_spec())
                &&& config::opt_str_view(c.log.path) == config::merged_path(
                    config_file.log_spec(),
                )
                &&& c.log.level == config::merged_level(config_file.log_spec())
            }),
            r is Ok ==> match config_file.comm_methods_spec() {
                Some(ms) => final(self).comms@.len() == ms.len() && forall|i: int|
                    0 <= i < ms.len() ==> (#[trigger] final(self).comms@[i]).0@ == ms[i].0@
                        && comm::comm_of_descriptor(final(self).comms@[i].1, ms[i].1),
                None => final(self).comms@.len() == 0,
            },
    {
        let config = match config::Config::from_config_file(config_file) {
            Ok(c) => c,
            Err(e) => {
                return Err(e);
            },
        };
        let comms = match config_file.comm_methods() {
            Some(comm_methods) => match comm::comms_from_descriptors(comm_methods) {
                Ok(cs) => cs,
                Err(e) => {
                    return Err(e);
                },
            },
            None => Vec::new(),
        };
        self.config = Some(config);
        self.comms = comms;
        Ok(())
    }

    /// Registers an action handler under the given name, replacing any earlier
    /// one.  Only valid before the gateway enters its run phase.
    pub fn register_action_handler(&mut self, name: &str, action: H)
        requires
            old(self).wf(),
            old(self).phase == GatewayPhase::Setup,
        ensures
            final(self).wf(),
            *final(self) == (OneBot { action_handlers: final(self).action_handlers, ..*old(self) }),
            final(self).action_handlers@ == old(self).action_handlers@.insert(name@, action),
    {
        self.action_handlers.register(name, action);
    }

    /// Publishes one event to every subscriber, stamping the gateway's
    /// platform tag and bot identity so that every consumer sees a consistent
    /// origin, whichever transport forwards it.
    pub fn emit_event(&mut self, event: event::Event)
        requires
            old(self).wf(),
            old(self).bus.total() < u64::MAX,
        ensures
            final(self).wf(),
            *final(self) == (OneBot { bus: final(self).bus, ..*old(self) }),
            final(self).bus.cap() == old(self).bus.cap(),
            final(self).bus.history().len() == old(self).bus.history().len() + 1,
            final(self).bus.history().drop_last() == old(self).bus.history(),
            final(self).bus.history().last()@ == (event::EventView {
                platform: old(self).platform@,
                bot_user: match old(self).self_user {
                    Some(u) => u@,
                    None => event@.bot_user,
                },
                ..event@
            }),
            forall|s: bus::BusSubscriber| old(self).bus.wf_sub(s) ==> final(self).bus.wf_sub(s),
    {
        let stamped_event = event::Event {
            platform: self.platform.clone(),
            bot_user: match &self.self_user {
                Some(u) => u.duplicate(),
                None => event.bot_user,
            },
            ..event
        };
        let ghost pre = self.bus.history();
        self.bus.publish(stamped_event);
        proof {
            assert(final(self).bus.history().drop_last() =~= pre);
        }
    }

    /// A fresh, independent subscription to the gateway's event bus.
    pub fn subscribe(&self) -> (sub: bus::BusSubscriber)
        requires
            self.wf(),
        ensures
            self.bus.wf_sub(sub),
            sub.cursor as int == self.bus.total(),
            sub.joined@ == self.bus.total(),
    {
        self.bus.subscribe()
    }

    /// Validates the configuration and enters the run phase.  A missing
    /// platform name, bot identity or configuration is a fatal configuration
    /// error raised here, before any transport starts; on success the gateway
    /// is `Running` and the caller gets what it needs to drive the heartbeat
    /// and the log sink.
    pub fn start_run(&mut self) -> (r: Result<RunPlan, config::ConfigError>)
        requires
            old(self).phase == GatewayPhase::Setup,
        ensures
            old(self).platform@.len() == 0 ==> r == Err::<RunPlan, config::ConfigError>(
                config::ConfigError::MissingPlatform,
            ),
            old(self).platform@.len() > 0 && !old(self).has_self_id_spec() ==> r == Err::<
                RunPlan,
                config::ConfigError,
            >(config::ConfigError::MissingSelfId),
            old(self).platform@.len() > 0 && old(self).has_self_id_spec() && old(self).config
                is None ==> r == Err::<RunPlan, config::ConfigError>(
                config::ConfigError::MissingConfig,
            ),
            r is Err ==> *final(self) == *old(self),
            r is Ok <==> old(self).configured(),
            r matches Ok(plan) ==> {
                &&& *final(self) == (OneBot { phase: GatewayPhase::Running, ..*old(self) })
                &&& plan.heartbeat == old(self).config.unwrap().heartbeat
                &&& plan.log == old(self).config.unwrap().log
            },
    {
        if self.platform.unicode_len() == 0 {
            return Err(config::ConfigError::MissingPlatform);
        }
        if !self.has_self_id() {
            return Err(config::ConfigError::MissingSelfId);
        }
        let plan = match &self.config {
            Some(c) => RunPlan {
                heartbeat: c.heartbeat,
                log: config::Log {
                    output: c.log.output,
                    path: match &c.log.path {
                        Some(p) => Some(p.clone()),
                        None => None,
                    },
                    level: c.log.level,
                },
            },
            None => {
                return Err(config::ConfigError::MissingConfig);
            },
        };
        self.phase = GatewayPhase::Running;
        Ok(plan)
    }

    /// Begins the orderly shutdown: from `Running` the gateway moves to
    /// `ShuttingDown`, which tells the caller to propagate cancellation into
    /// every spawned transport task; in any other phase nothing changes.
    pub fn shutdown(&mut self)
        ensures
            *final(self) == (OneBot { phase: final(self).phase, ..*old(self) }),
            final(self).phase == (if old(self).phase == GatewayPhase::Running {
                GatewayPhase::ShuttingDown
            } else {
                old(self).phase
            }),
    {
        if self.phase == GatewayPhase::Running {
            self.phase = GatewayPhase::ShuttingDown;
        }
    }

    /// Records that every transport task has wound down: from `ShuttingDown`
    /// the gateway moves to `Stopped`; in any other phase nothing changes.
    pub fn finish_shutdown(&mut self)
        ensures
            *final(self) == (OneBot { phase: final(self).phase, ..*old(self) }),
            final(self).phase == (if old(self).phase == GatewayPhase::ShuttingDown {
                GatewayPhase::Stopped
            } else {
                old(self).phase
            }),
    {
        if self.phase == GatewayPhase::ShuttingDown {
            self.phase = GatewayPhase::Stopped;
        }
    }
}

} // verus!
