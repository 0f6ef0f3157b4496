//! The command builder: from a run specification, or from a database
//! described by its kind, to the argument list of the engine's `run`.

use vstd::prelude::*;

use crate::text::{decimal, int_to_string, join2, join3, push_all, push_text, same_text};
use crate::types::docker::{
    keys_ascending, lemma_key_order_is_canonical, DockerRunArgs, DockerRunArgsView, EnvVars,
    PortMapping, VolumeMount, VolumeMountView,
};
use crate::types::requests::{CreateDatabaseRequest, CreateDatabaseRequestView};

verus! {

/// The kinds of database that the library knows.
#[derive(Debug, Clone, Copy, PartialEq, Eq, Structural)]
pub enum DatabaseKind {
    PostgreSql,
    MySql,
    Redis,
    MongoDb,
}

/// The kind that a record's `db_type` names, if it names one.
pub open spec fn kind_of(db_type: Seq<char>) -> Option<DatabaseKind> {
    if db_type == "PostgreSQL"@ {
        Some(DatabaseKind::PostgreSql)
    } else if db_type == "MySQL"@ {
        Some(DatabaseKind::MySql)
    } else if db_type == "Redis"@ {
        Some(DatabaseKind::Redis)
    } else if db_type == "MongoDB"@ {
        Some(DatabaseKind::MongoDb)
    } else {
        None
    }
}

/// The port on which a database of this kind listens inside its container.
pub open spec fn default_port(kind: DatabaseKind) -> i32 {
    match kind {
        DatabaseKind::PostgreSql => 5432,
        DatabaseKind::MySql => 3306,
        DatabaseKind::Redis => 6379,
        DatabaseKind::MongoDb => 27017,
    }
}

/// The directory in which a database of this kind keeps its data.
pub open spec fn data_path(kind: DatabaseKind) -> Seq<char> {
    match kind {
        DatabaseKind::PostgreSql => "/var/lib/postgresql/data"@,
        DatabaseKind::MySql => "/var/lib/mysql"@,
        DatabaseKind::Redis => "/data"@,
        DatabaseKind::MongoDb => "/data/db"@,
    }
}

/// The image of this kind of database, before the `:` and the version.
pub open spec fn image_prefix(kind: DatabaseKind) -> Seq<char> {
    match kind {
        DatabaseKind::PostgreSql => "postgres"@,
        DatabaseKind::MySql => "mysql"@,
        DatabaseKind::Redis => "redis"@,
        DatabaseKind::MongoDb => "mongo"@,
    }
}

/// The port that `db_type` stands for, that of PostgreSQL where it names no
/// known kind.
pub open spec fn default_port_of(db_type: Seq<char>) -> i32 {
    match kind_of(db_type) {
        Some(kind) => default_port(kind),
        None => 5432,
    }
}

/// The data directory that `db_type` stands for, `/data` where it names no
/// known kind.
pub open spec fn data_path_of(db_type: Seq<char>) -> Seq<char> {
    match kind_of(db_type) {
        Some(kind) => data_path(kind),
        None => "/data"@,
    }
}

/// `host:container`, both in decimal.
pub open spec fn port_pair(p: PortMapping) -> Seq<char> {
    decimal(p.host as int) + ":"@ + decimal(p.container as int)
}

/// `name:path`.
pub open spec fn volume_pair(v: VolumeMountView) -> Seq<char> {
    v.name + ":"@ + v.path
}

/// `KEY=VALUE`.
pub open spec fn env_pair(e: (Seq<char>, Seq<char>)) -> Seq<char> {
    e.0 + "="@ + e.1
}

/// `-p host:container` for each port mapping, in order.
pub open spec fn port_args(ports: Seq<PortMapping>) -> Seq<Seq<char>>
    decreases ports.len(),
{
    if ports.len() == 0 {
        Seq::empty()
    } else {
        port_args(ports.drop_last()).push("-p"@).push(port_pair(ports.last()))
    }
}

/// `-v name:path` for each volume mount, in order.
pub open spec fn volume_args(volumes: Seq<VolumeMountView>) -> Seq<Seq<char>>
    decreases volumes.len(),
{
    if volumes.len() == 0 {
        Seq::empty()
    } else {
        volume_args(volumes.drop_last()).push("-v"@).push(volume_pair(volumes.last()))
    }
}

/// `-e KEY=VALUE` for each environment variable, in order.
pub open spec fn env_args(env: Seq<(Seq<char>, Seq<char>)>) -> Seq<Seq<char>>
    decreases env.len(),
{
    if env.len() == 0 {
        Seq::empty()
    } else {
        env_args(env.drop_last()).push("-e"@).push(env_pair(env.last()))
    }
}

/// The argument list that runs a detached container called `name` from the
/// run specification `spec`: `run -d --name name`, the ports, the volumes,
/// the environment, the image, and the trailing command.
pub open spec fn run_args(name: Seq<char>, spec: DockerRunArgsView) -> Seq<Seq<char>> {
    seq!["run"@, "-d"@, "--name"@, name] + port_args(spec.ports) + volume_args(spec.volumes)
        + env_args(spec.env_vars) + seq![spec.image] + spec.command
}

/// A setting counts as given where its text is not empty.
pub open spec fn given(text: Seq<char>) -> bool {
    text.len() > 0
}

/// `entries` with one more variable where `value` is there and `wanted`.
pub open spec fn with_optional(
    entries: Seq<(Seq<char>, Seq<char>)>,
    key: Seq<char>,
    value: Option<Seq<char>>,
    wanted: bool,
) -> Seq<(Seq<char>, Seq<char>)> {
    match value {
        Some(v) => if wanted {
            entries.push((key, v))
        } else {
            entries
        },
        None => entries,
    }
}

/// The environment of a PostgreSQL container: the password always; the user
/// and the database where they are given and not `postgres`; the host
/// authentication method and the arguments of `initdb` where the settings give
/// them.
pub open spec fn postgres_env(request: CreateDatabaseRequestView) -> Seq<(Seq<char>, Seq<char>)> {
    let e0 = seq![("POSTGRES_PASSWORD"@, request.password)];
    let e1 = with_optional(
        e0,
        "POSTGRES_USER"@,
        request.username,
        request.username != Some("postgres"@),
    );
    let e2 = with_optional(
        e1,
        "POSTGRES_DB"@,
        request.database_name,
        request.database_name != Some("postgres"@),
    );
    match request.postgres_settings {
        Some(settings) => {
            let e3 = with_optional(
                e2,
                "POSTGRES_HOST_AUTH_METHOD"@,
                Some(settings.host_auth_method),
                given(settings.host_auth_method),
            );
            with_optional(
                e3,
                "POSTGRES_INITDB_ARGS"@,
                settings.initdb_args,
                settings.initdb_args matches Some(a) && given(a),
            )
        },
        None => e2,
    }
}

/// The environment of a MySQL container: the root password always; the
/// database where it is given; the character set and the collation where the
/// settings give them.
pub open spec fn mysql_env(request: CreateDatabaseRequestView) -> Seq<(Seq<char>, Seq<char>)> {
    let e0 = seq![("MYSQL_ROOT_PASSWORD"@, request.password)];
    let e1 = with_optional(e0, "MYSQL_DATABASE"@, request.database_name, true);
    match request.mysql_settings {
        Some(settings) => {
            let e2 = with_optional(
                e1,
                "MYSQL_CHARSET"@,
                Some(settings.character_set),
                given(settings.character_set),
            );
            with_optional(
                e2,
                "MYSQL_COLLATION"@,
                Some(settings.collation),
                given(settings.collation),
            )
        },
        None => e1,
    }
}

/// The environment of a MongoDB container: the root user, `admin` where none
/// is given, and the root password always; the database where it is given.
pub open spec fn mongo_env(request: CreateDatabaseRequestView) -> Seq<(Seq<char>, Seq<char>)> {
    let user = match request.username {
        Some(u) => u,
        None => "admin"@,
    };
    let e0 = seq![
        ("MONGO_INITDB_ROOT_USERNAME"@, user),
        ("MONGO_INITDB_ROOT_PASSWORD"@, request.password),
    ];
    with_optional(e0, "MONGO_INITDB_DATABASE"@, request.database_name, true)
}

/// `tokens` with `flag value` appended where `wanted`.
pub open spec fn with_flag(
    tokens: Seq<Seq<char>>,
    flag: Seq<char>,
    value: Seq<char>,
    wanted: bool,
) -> Seq<Seq<char>> {
    if wanted {
        tokens.push(flag).push(value)
    } else {
        tokens
    }
}

/// The command of a Redis container. Without authentication and without
/// settings there is none. Otherwise it is `redis-server`, then the password
/// where authentication is on, then the memory limit, the eviction policy and
/// append-only persistence as far as the settings give them.
pub open spec fn redis_command(request: CreateDatabaseRequestView) -> Seq<Seq<char>> {
    if !request.enable_auth && request.redis_settings is None {
        Seq::empty()
    } else {
        let c0 = seq!["redis-server"@];
        let c1 = with_flag(c0, "--requirepass"@, request.password, request.enable_auth);
        match request.redis_settings {
            Some(settings) => {
                let c2 = with_flag(
                    c1,
                    "--maxmemory"@,
                    settings.max_memory,
                    given(settings.max_memory),
                );
                let c3 = with_flag(
                    c2,
                    "--maxmemory-policy"@,
                    settings.max_memory_policy,
                    given(settings.max_memory_policy),
                );
                with_flag(c3, "--appendonly"@, "yes"@, settings.append_only)
            },
            None => c1,
        }
    }
}

/// The run specification of a database of kind `kind` described by
/// `request`, with its data in the volume `volume` where one is named.
pub open spec fn kind_run_spec(
    kind: DatabaseKind,
    request: CreateDatabaseRequestView,
    volume: Option<Seq<char>>,
) -> DockerRunArgsView {
    DockerRunArgsView {
        image: image_prefix(kind) + ":"@ + request.version,
        env_vars: match kind {
            DatabaseKind::PostgreSql => postgres_env(request),
            DatabaseKind::MySql => mysql_env(request),
            DatabaseKind::Redis => Seq::empty(),
            DatabaseKind::MongoDb => mongo_env(request),
        },
        ports: seq![PortMapping { host: request.port, container: default_port(kind) }],
        volumes: match volume {
            Some(name) => seq![VolumeMountView { name: name, path: data_path(kind) }],
            None => Seq::empty(),
        },
        command: match kind {
            DatabaseKind::Redis => redis_command(request),
            _ => Seq::empty(),
        },
    }
}

/// The message for a `db_type` that names no known kind.
pub open spec fn unsupported_kind(db_type: Seq<char>) -> Seq<char> {
    "Unsupported database type: "@ + db_type
}

/// The kind that `db_type` names, if it names one.
pub fn parse_kind(db_type: &str) -> (r: Option<DatabaseKind>)
    ensures
        r == kind_of(db_type@),
{
    if same_text(db_type, "PostgreSQL") {
        Some(DatabaseKind::PostgreSql)
    } else if same_text(db_type, "MySQL") {
        Some(DatabaseKind::MySql)
    } else if same_text(db_type, "Redis") {
        Some(DatabaseKind::Redis)
    } else if same_text(db_type, "MongoDB") {
        Some(DatabaseKind::MongoDb)
    } else {
        None
    }
}

impl DatabaseKind {
    /// The port on which a database of this kind listens inside its
    /// container.
    pub fn port(self) -> (r: i32)
        ensures
            r == default_port(self),
    {
        match self {
            DatabaseKind::PostgreSql => 5432,
            DatabaseKind::MySql => 3306,
            DatabaseKind::Redis => 6379,
            DatabaseKind::MongoDb => 27017,
        }
    }

    /// The directory in which a database of this kind keeps its data.
    pub fn path(self) -> (r: &'static str)
        ensures
            r@ == data_path(self),
    {
        match self {
            DatabaseKind::PostgreSql => "/var/lib/postgresql/data",
            DatabaseKind::MySql => "/var/lib/mysql",
            DatabaseKind::Redis => "/data",
            DatabaseKind::MongoDb => "/data/db",
        }
    }

    /// The image of this kind of database, before the `:` and the version.
    pub fn image(self) -> (r: &'static str)
        ensures
            r@ == image_prefix(self),
    {
        match self {
            DatabaseKind::PostgreSql => "postgres",
            DatabaseKind::MySql => "mysql",
            DatabaseKind::Redis => "redis",
            DatabaseKind::MongoDb => "mongo",
        }
    }
}

/// Adds `key=value` to `env` where `value` is there and `wanted`. The key
/// must be new.
fn add_optional(env: &mut EnvVars, key: &str, value: &Option<String>, wanted: bool)
    requires
        forall|at: int| 0 <= at < old(env)@.len() ==> old(env)@[at].0 != key@,
    ensures
        final(env)@ == with_optional(old(env)@, key@, value.deep_view(), wanted),
        forall|at: int|
            0 <= at < final(env)@.len() ==> (at < old(env)@.len() && final(env)@[at] == old(
                env,
            )@[at]) || (#[trigger] final(env)@[at]).0 == key@,
{
    match value {
        Some(v) => {
            if wanted {
                env.insert(String::from_str(key), v.clone());
            }
        },
        None => {},
    }
}

/// Appends `flag value` to `tokens` where `wanted`.
fn add_flag(tokens: &mut Vec<String>, flag: &str, value: &str, wanted: bool)
    ensures
        final(tokens).deep_view() == with_flag(old(tokens).deep_view(), flag@, value@, wanted),
{
    if wanted {
        push_text(tokens, String::from_str(flag));
        push_text(tokens, String::from_str(value));
    }
}

/// Builds engine invocations.
#[derive(Debug, Clone, Copy)]
pub struct DockerService {}

impl DockerService {
    pub fn new() -> (r: Self) {
        DockerService {  }
    }

    /// The argument list that runs a detached container called
    /// `container_name` from the run specification `docker_args`. Equal
    /// inputs give equal lists.
    pub fn build_docker_command_from_args(
        &self,
        container_name: &str,
        docker_args: &DockerRunArgs,
    ) -> (r: Vec<String>)
        ensures
            r.deep_view() == run_args(container_name@, docker_args@),
    {
        let mut args: Vec<String> = Vec::new();
        push_text(&mut args, String::from_str("run"));
        push_text(&mut args, String::from_str("-d"));
        push_text(&mut args, String::from_str("--name"));
        push_text(&mut args, String::from_str(container_name));
        let ghost head = seq!["run"@, "-d"@, "--name"@, container_name@];
        assert(args.deep_view() =~= head);

        let mut at: usize = 0;
        assert(docker_args.ports@.take(0) =~= Seq::<PortMapping>::empty());
        assert(args.deep_view() =~= head + port_args(docker_args.ports@.take(0)));
        while at < docker_args.ports.len()
            invariant
                at <= docker_args.ports.len(),
                args.deep_view() == head + port_args(docker_args.ports@.take(at as int)),
            decreases docker_args.ports.len() - at,
        {
            let port = docker_args.ports[at];
            let host = int_to_string(port.host as i64);
            let inside = int_to_string(port.container as i64);
            push_text(&mut args, String::from_str("-p"));
            push_text(&mut args, join3(host.as_str(), ":", inside.as_str()));
            proof {
                let upto = docker_args.ports@.take(at + 1);
                assert(upto.drop_last() =~= docker_args.ports@.take(at as int));
                assert(upto.last() == port);
                assert(args.deep_view() =~= head + port_args(upto));
            }
            at += 1;
        }
        assert(docker_args.ports@.take(at as int) =~= docker_args.ports@);
        let ghost with_ports = head + port_args(docker_args.ports@);

        let ghost volumes = docker_args.volumes.deep_view();
        let mut at: usize = 0;
        assert(volumes.take(0) =~= Seq::<VolumeMountView>::empty());
        assert(args.deep_view() =~= with_ports + volume_args(volumes.take(0)));
        while at < docker_args.volumes.len()
            invariant
                at <= docker_args.volumes.len(),
                volumes == docker_args.volumes.deep_view(),
                args.deep_view() == with_ports + volume_args(volumes.take(at as int)),
            decreases docker_args.volumes.len() - at,
        {
            let volume = &docker_args.volumes[at];
            push_text(&mut args, String::from_str("-v"));
            push_text(&mut args, join3(volume.name.as_str(), ":", volume.path.as_str()));
            proof {
                let upto = volumes.take(at + 1);
                assert(upto.drop_last() =~= volumes.take(at as int));
                assert(upto.last() == volume@);
                assert(args.deep_view() =~= with_ports + volume_args(upto));
            }
            at += 1;
        }
        assert(volumes.take(at as int) =~= volumes);
        let ghost with_volumes = with_ports + volume_args(volumes);

        let ghost env = docker_args.env_vars@;
        let mut at: usize = 0;
        assert(env.take(0) =~= Seq::<(Seq<char>, Seq<char>)>::empty());
        assert(args.deep_view() =~= with_volumes + env_args(env.take(0)));
        while at < docker_args.env_vars.len()
            invariant
                at <= env.len(),
                env == docker_args.env_vars@,
                args.deep_view() == with_volumes + env_args(env.take(at as int)),
            decreases env.len() - at,
        {
            let (key, value) = docker_args.env_vars.entry(at);
            push_text(&mut args, String::from_str("-e"));
            push_text(&mut args, join3(key.as_str(), "=", value.as_str()));
            proof {
                let upto = env.take(at + 1);
                assert(upto.drop_last() =~= env.take(at as int));
                assert(upto.last() == env[at as int]);
                assert(env_pair(env[at as int]) == key@ + "="@ + value@);
                assert(args.deep_view() =~= with_volumes + env_args(upto));
            }
            at += 1;
        }
        assert(env.take(at as int) =~= env);

        push_text(&mut args, docker_args.image.clone());
        push_all(&mut args, &docker_args.command);
        assert(args.deep_view() =~= run_args(container_name@, docker_args@));
        args
    }

    /// The port on which a database of the kind `db_type` listens inside its
    /// container; that of PostgreSQL where the kind is not known.
    pub fn get_default_port(&self, db_type: &str) -> (r: i32)
        ensures
            r == default_port_of(db_type@),
    {
        match parse_kind(db_type) {
            Some(kind) => kind.port(),
            None => 5432,
        }
    }

    /// The directory in which a database of the kind `db_type` keeps its
    /// data; `/data` where the kind is not known.
    pub fn get_data_path(&self, db_type: &str) -> (r: &'static str)
        ensures
            r@ == data_path_of(db_type@),
    {
        match parse_kind(db_type) {
            Some(kind) => kind.path(),
            None => "/data",
        }
    }
    /// The run specification of the database that `request` describes, with
    /// its data in the volume `volume_name` where one is named. The image is
    /// the kind's image with the version as its tag, and the one port mapping
    /// leads to the kind's own port. A `db_type` that names no known kind is
    /// refused.
    pub fn run_specification(
        &self,
        request: &CreateDatabaseRequest,
        volume_name: &Option<String>,
    ) -> (r: Result<DockerRunArgs, String>)
        ensures
            match r {
                Ok(spec) => {
                    &&& kind_of(request.db_type@) matches Some(kind)
                    &&& spec@ == kind_run_spec(kind, request@, volume_name.deep_view())
                    &&& spec.image@ == image_prefix(kind) + ":"@ + request.version@
                    &&& spec.ports@ == seq![
                        PortMapping { host: request.port, container: default_port(kind) },
                    ]
                },
                Err(e) => kind_of(request.db_type@) is None && e@ == unsupported_kind(
                    request.db_type@,
                ),
            },
    {
        let kind = match parse_kind(request.db_type.as_str()) {
            Some(kind) => kind,
            None => {
                return Err(join2("Unsupported database type: ", request.db_type.as_str()));
            },
        };
        let image = join3(kind.image(), ":", request.version.as_str());
        let mut ports: Vec<PortMapping> = Vec::new();
        ports.push(PortMapping { host: request.port, container: kind.port() });
        let mut volumes: Vec<VolumeMount> = Vec::new();
        match volume_name {
            Some(name) => {
                volumes.push(VolumeMount { name: name.clone(), path: String::from_str(kind.path()) });
            },
            None => {},
        }
        let env_vars = match kind {
            DatabaseKind::PostgreSql => self.postgres_environment(request),
            DatabaseKind::MySql => self.mysql_environment(request),
            DatabaseKind::Redis => EnvVars::new(),
            DatabaseKind::MongoDb => self.mongo_environment(request),
        };
        let command = match kind {
            DatabaseKind::Redis => self.redis_arguments(request),
            _ => Vec::new(),
        };
        let spec = DockerRunArgs { image, env_vars, ports, volumes, command };
        proof {
            let wanted = kind_run_spec(kind, request@, volume_name.deep_view());
            assert(spec@.ports =~= wanted.ports);
            assert(spec@.volumes =~= wanted.volumes);
            assert(spec@.command =~= wanted.command);
            assert(spec@.env_vars =~= wanted.env_vars);
        }
        Ok(spec)
    }

    /// The environment of the PostgreSQL container that `request` describes.
    fn postgres_environment(&self, request: &CreateDatabaseRequest) -> (r: EnvVars)
        ensures
            r@ == postgres_env(request@),
    {
        proof {
            reveal_strlit("POSTGRES_PASSWORD");
            reveal_strlit("POSTGRES_USER");
            reveal_strlit("POSTGRES_DB");
            reveal_strlit("POSTGRES_HOST_AUTH_METHOD");
            reveal_strlit("POSTGRES_INITDB_ARGS");
        }
        let mut env = EnvVars::new();
        env.insert(String::from_str("POSTGRES_PASSWORD"), request.password.clone());
        assert(env@ =~= seq![("POSTGRES_PASSWORD"@, request.password@)]);
        assert(forall|at: int| 0 <= at < env@.len() ==> (#[trigger] env@[at]).0.len() == 17);
        let user_wanted = match &request.username {
            Some(u) => !same_text(u.as_str(), "postgres"),
            None => false,
        };
        add_optional(&mut env, "POSTGRES_USER", &request.username, user_wanted);
        assert(forall|at: int| 0 <= at < env@.len() ==> (#[trigger] env@[at]).0.len() >= 13);
        let database_wanted = match &request.database_name {
            Some(d) => !same_text(d.as_str(), "postgres"),
            None => false,
        };
        add_optional(&mut env, "POSTGRES_DB", &request.database_name, database_wanted);
        assert(forall|at: int| 0 <= at < env@.len() ==> (#[trigger] env@[at]).0.len() <= 17);
        match &request.postgres_settings {
            Some(settings) => {
                let method = Some(settings.host_auth_method.clone());
                let method_wanted = settings.host_auth_method.as_str().unicode_len() > 0;
                add_optional(&mut env, "POSTGRES_HOST_AUTH_METHOD", &method, method_wanted);
                assert(forall|at: int|
                    0 <= at < env@.len() ==> (#[trigger] env@[at]).0.len() != 20);
                let arguments_wanted = match &settings.initdb_args {
                    Some(a) => a.as_str().unicode_len() > 0,
                    None => false,
                };
                add_optional(
                    &mut env,
                    "POSTGRES_INITDB_ARGS",
                    &settings.initdb_args,
                    arguments_wanted,
                );
            },
            None => {},
        }
        env
    }

    /// The environment of the MySQL container that `request` describes.
    fn mysql_environment(&self, request: &CreateDatabaseRequest) -> (r: EnvVars)
        ensures
            r@ == mysql_env(request@),
    {
        proof {
            reveal_strlit("MYSQL_ROOT_PASSWORD");
            reveal_strlit("MYSQL_DATABASE");
            reveal_strlit("MYSQL_CHARSET");
            reveal_strlit("MYSQL_COLLATION");
        }
        let mut env = EnvVars::new();
        env.insert(String::from_str("MYSQL_ROOT_PASSWORD"), request.password.clone());
        assert(env@ =~= seq![("MYSQL_ROOT_PASSWORD"@, request.password@)]);
        assert(forall|at: int| 0 <= at < env@.len() ==> (#[trigger] env@[at]).0.len() == 19);
        add_optional(&mut env, "MYSQL_DATABASE", &request.database_name, true);
        assert(forall|at: int| 0 <= at < env@.len() ==> (#[trigger] env@[at]).0.len() >= 14);
        match &request.mysql_settings {
            Some(settings) => {
                let charset = Some(settings.character_set.clone());
                let charset_wanted = settings.character_set.as_str().unicode_len() > 0;
                add_optional(&mut env, "MYSQL_CHARSET", &charset, charset_wanted);
                assert(forall|at: int|
                    0 <= at < env@.len() ==> (#[trigger] env@[at]).0.len() != 15);
                let collation = Some(settings.collation.clone());
                let collation_wanted = settings.collation.as_str().unicode_len() > 0;
                add_optional(&mut env, "MYSQL_COLLATION", &collation, collation_wanted);
            },
            None => {},
        }
        env
    }

    /// The environment of the MongoDB container that `request` describes.
    fn mongo_environment(&self, request: &CreateDatabaseRequest) -> (r: EnvVars)
        ensures
            r@ == mongo_env(request@),
    {
        proof {
            reveal_strlit("MONGO_INITDB_ROOT_USERNAME");
            reveal_strlit("MONGO_INITDB_ROOT_PASSWORD");
            reveal_strlit("MONGO_INITDB_DATABASE");
        }
        let user = match &request.username {
            Some(u) => u.clone(),
            None => String::from_str("admin"),
        };
        let mut env = EnvVars::new();
        env.insert(String::from_str("MONGO_INITDB_ROOT_USERNAME"), user);
        assert(env@ =~= seq![("MONGO_INITDB_ROOT_USERNAME"@, user@)]);
        assert("MONGO_INITDB_ROOT_USERNAME"@[18] != "MONGO_INITDB_ROOT_PASSWORD"@[18]);
        let password = Some(request.password.clone());
        add_optional(&mut env, "MONGO_INITDB_ROOT_PASSWORD", &password, true);
        assert(forall|at: int| 0 <= at < env@.len() ==> (#[trigger] env@[at]).0.len() == 26);
        add_optional(&mut env, "MONGO_INITDB_DATABASE", &request.database_name, true);
        assert(env@ =~= mongo_env(request@));
        env
    }

    /// The command of the Redis container that `request` describes.
    fn redis_arguments(&self, request: &CreateDatabaseRequest) -> (r: Vec<String>)
        ensures
            r.deep_view() == redis_command(request@),
    {
        let mut tokens: Vec<String> = Vec::new();
        assert(tokens.deep_view() =~= Seq::<Seq<char>>::empty());
        if !request.enable_auth && request.redis_settings.is_none() {
            return tokens;
        }
        push_text(&mut tokens, String::from_str("redis-server"));
        assert(tokens.deep_view() =~= seq!["redis-server"@]);
        add_flag(&mut tokens, "--requirepass", request.password.as_str(), request.enable_auth);
        match &request.redis_settings {
            Some(settings) => {
                let memory_wanted = settings.max_memory.as_str().unicode_len() > 0;
                add_flag(&mut tokens, "--maxmemory", settings.max_memory.as_str(), memory_wanted);
                let policy_wanted = settings.max_memory_policy.as_str().unicode_len() > 0;
                add_flag(
                    &mut tokens,
                    "--maxmemory-policy",
                    settings.max_memory_policy.as_str(),
                    policy_wanted,
                );
                add_flag(&mut tokens, "--appendonly", "yes", settings.append_only);
            },
            None => {},
        }
        tokens
    }

    /// The argument list that runs the database that `request` describes,
    /// with its data in the volume `volume_name` where one is named.
    pub fn build_docker_command(
        &self,
        request: &CreateDatabaseRequest,
        volume_name: &Option<String>,
    ) -> (r: Result<Vec<String>, String>)
        ensures
            match r {
                Ok(args) => kind_of(request.db_type@) matches Some(kind) && args.deep_view()
                    == run_args(
                    request.name@,
                    kind_run_spec(kind, request@, volume_name.deep_view()),
                ),
                Err(e) => kind_of(request.db_type@) is None && e@ == unsupported_kind(
                    request.db_type@,
                ),
            },
    {
        match self.run_specification(request, volume_name) {
            Ok(spec) => Ok(self.build_docker_command_from_args(request.name.as_str(), &spec)),
            Err(e) => Err(e),
        }
    }
}

/// Each port mapping gives two arguments.
pub proof fn lemma_port_args_length(ports: Seq<PortMapping>)
    ensures
        port_args(ports).len() == 2 * ports.len(),
    decreases ports.len(),
{
    if ports.len() > 0 {
        lemma_port_args_length(ports.drop_last());
    }
}

/// Each volume mount gives two arguments.
pub proof fn lemma_volume_args_length(volumes: Seq<VolumeMountView>)
    ensures
        volume_args(volumes).len() == 2 * volumes.len(),
    decreases volumes.len(),
{
    if volumes.len() > 0 {
        lemma_volume_args_length(volumes.drop_last());
    }
}

/// Each environment variable gives two arguments.
pub proof fn lemma_env_args_length(env: Seq<(Seq<char>, Seq<char>)>)
    ensures
        env_args(env).len() == 2 * env.len(),
    decreases env.len(),
{
    if env.len() > 0 {
        lemma_env_args_length(env.drop_last());
    }
}

/// The layout of the argument list: it begins with `run -d --name` and the
/// name; the image stands behind the ports, the volumes and the environment,
/// two arguments each; the trailing command ends the list.
pub proof fn lemma_run_args_layout(name: Seq<char>, spec: DockerRunArgsView)
    ensures
        ({
            let args = run_args(name, spec);
            let p: int = 4 + 2 * (spec.ports.len() as int);
            let v: int = p + 2 * spec.volumes.len();
            let e: int = v + 2 * spec.env_vars.len();
            &&& args.len() == e + 1 + spec.command.len()
            &&& args.subrange(0, 4) == seq!["run"@, "-d"@, "--name"@, name]
            &&& args.subrange(4, p) == port_args(spec.ports)
            &&& args.subrange(p, v) == volume_args(spec.volumes)
            &&& args.subrange(v, e) == env_args(spec.env_vars)
            &&& args[e] == spec.image
            &&& args.subrange(e + 1, args.len() as int) == spec.command
        }),
{
    lemma_port_args_length(spec.ports);
    lemma_volume_args_length(spec.volumes);
    lemma_env_args_length(spec.env_vars);
    let args = run_args(name, spec);
    let p: int = 4 + 2 * (spec.ports.len() as int);
    let v: int = p + 2 * spec.volumes.len();
    let e: int = v + 2 * spec.env_vars.len();
    assert(args.subrange(0, 4) =~= seq!["run"@, "-d"@, "--name"@, name]);
    assert(args.subrange(4, p) =~= port_args(spec.ports));
    assert(args.subrange(p, v) =~= volume_args(spec.volumes));
    assert(args.subrange(v, e) =~= env_args(spec.env_vars));
    assert(args.subrange(e + 1, args.len() as int) =~= spec.command);
}

/// For every kind, the run specification names the kind's image with the
/// version as its tag, and maps the host port to the kind's own port.
pub proof fn lemma_kind_image_and_port(
    kind: DatabaseKind,
    request: CreateDatabaseRequestView,
    volume: Option<Seq<char>>,
)
    ensures
        kind_run_spec(kind, request, volume).image == image_prefix(kind) + ":"@ + request.version,
        kind_run_spec(kind, request, volume).ports == seq![
            PortMapping { host: request.port, container: default_port(kind) },
        ],
        volume matches Some(name) ==> kind_run_spec(kind, request, volume).volumes == seq![
            VolumeMountView { name, path: data_path(kind) },
        ],
        volume is None ==> kind_run_spec(kind, request, volume).volumes.len() == 0,
{
}

/// With the variables in the order of the dictionary, the argument list
/// depends on which variables there are and not on the order in which they
/// were given: two run specifications that differ at most in that order give
/// the same list.
pub proof fn lemma_equal_variables_equal_arguments(
    name: Seq<char>,
    first: DockerRunArgsView,
    second: DockerRunArgsView,
)
    requires
        first.image == second.image,
        first.ports == second.ports,
        first.volumes == second.volumes,
        first.command == second.command,
        keys_ascending(first.env_vars),
        keys_ascending(second.env_vars),
        forall|pair: (Seq<char>, Seq<char>)|
            first.env_vars.contains(pair) <==> second.env_vars.contains(pair),
    ensures
        run_args(name, first) == run_args(name, second),
{
    lemma_key_order_is_canonical(first.env_vars, second.env_vars);
}

} // verus!
