//! Settings that only one kind of database understands.

use vstd::prelude::*;

use crate::text::copy_optional;

verus! {

#[derive(Debug)]
pub struct PostgresSettings {
    pub initdb_args: Option<String>,
    pub host_auth_method: String,
    pub shared_preload_libraries: Option<String>,
}

pub struct PostgresSettingsView {
    pub initdb_args: Option<Seq<char>>,
    pub host_auth_method: Seq<char>,
    pub shared_preload_libraries: Option<Seq<char>>,
}

impl View for PostgresSettings {
    type V = PostgresSettingsView;

    open spec fn view(&self) -> PostgresSettingsView {
        PostgresSettingsView {
            initdb_args: self.initdb_args.deep_view(),
            host_auth_method: self.host_auth_method@,
            shared_preload_libraries: self.shared_preload_libraries.deep_view(),
        }
    }
}

impl DeepView for PostgresSettings {
    type V = PostgresSettingsView;

    open spec fn deep_view(&self) -> PostgresSettingsView {
        self@
    }
}

impl Clone for PostgresSettings {
    fn clone(&self) -> (r: Self)
        ensures
            r@ == self@,
    {
        PostgresSettings {
            initdb_args: copy_optional(&self.initdb_args),
            host_auth_method: self.host_auth_method.clone(),
            shared_preload_libraries: copy_optional(&self.shared_preload_libraries),
        }
    }
}

#[derive(Debug)]
pub struct MysqlSettings {
    pub root_host: String,
    pub character_set: String,
    pub collation: String,
    pub sql_mode: String,
}

pub struct MysqlSettingsView {
    pub root_host: Seq<char>,
    pub character_set: Seq<char>,
    pub collation: Seq<char>,
    pub sql_mode: Seq<char>,
}

impl View for MysqlSettings {
    type V = MysqlSettingsView;

    open spec fn view(&self) -> MysqlSettingsView {
        MysqlSettingsView {
            root_host: self.root_host@,
            character_set: self.character_set@,
            collation: self.collation@,
            sql_mode: self.sql_mode@,
        }
    }
}

impl DeepView for MysqlSettings {
    type V = MysqlSettingsView;

    open spec fn deep_view(&self) -> MysqlSettingsView {
        self@
    }
}

impl Clone for MysqlSettings {
    fn clone(&self) -> (r: Self)
        ensures
            r@ == self@,
    {
        MysqlSettings {
            root_host: self.root_host.clone(),
            character_set: self.character_set.clone(),
            collation: self.collation.clone(),
            sql_mode: self.sql_mode.clone(),
        }
    }
}

#[derive(Debug)]
pub struct RedisSettings {
    pub max_memory: String,
    pub max_memory_policy: String,
    pub append_only: bool,
    pub require_pass: bool,
}

pub struct RedisSettingsView {
    pub max_memory: Seq<char>,
    pub max_memory_policy: Seq<char>,
    pub append_only: bool,
    pub require_pass: bool,
}

impl View for RedisSettings {
    type V = RedisSettingsView;

    open spec fn view(&self) -> RedisSettingsView {
        RedisSettingsView {
            max_memory: self.max_memory@,
            max_memory_policy: self.max_memory_policy@,
            append_only: self.append_only,
            require_pass: self.require_pass,
        }
    }
}

impl DeepView for RedisSettings {
    type V = RedisSettingsView;

    open spec fn deep_view(&self) -> RedisSettingsView {
        self@
    }
}

impl Clone for RedisSettings {
    fn clone(&self) -> (r: Self)
        ensures
            r@ == self@,
    {
        RedisSettings {
            max_memory: self.max_memory.clone(),
            max_memory_policy: self.max_memory_policy.clone(),
            append_only: self.append_only,
            require_pass: self.require_pass,
        }
    }
}

#[derive(Debug)]
pub struct MongoSettings {
    pub auth_source: String,
    pub enable_sharding: bool,
    pub oplog_size: String,
}

pub struct MongoSettingsView {
    pub auth_source: Seq<char>,
    pub enable_sharding: bool,
    pub oplog_size: Seq<char>,
}

impl View for MongoSettings {
    type V = MongoSettingsView;

    open spec fn view(&self) -> MongoSettingsView {
        MongoSettingsView {
            auth_source: self.auth_source@,
            enable_sharding: self.enable_sharding,
            oplog_size: self.oplog_size@,
        }
    }
}

impl DeepView for MongoSettings {
    type V = MongoSettingsView;

    open spec fn deep_view(&self) -> MongoSettingsView {
        self@
    }
}

impl Clone for MongoSettings {
    fn clone(&self) -> (r: Self)
        ensures
            r@ == self@,
    {
        MongoSettings {
            auth_source: self.auth_source.clone(),
            enable_sharding: self.enable_sharding,
            oplog_size: self.oplog_size.clone(),
        }
    }
}

} // verus!
