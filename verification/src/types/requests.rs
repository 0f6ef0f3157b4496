//! Requests in the fixed schema: a database described by its kind.

use vstd::prelude::*;

use crate::types::settings::{
    MongoSettings, MongoSettingsView, MysqlSettings, MysqlSettingsView, PostgresSettings,
    PostgresSettingsView, RedisSettings, RedisSettingsView,
};

verus! {

/// A database to create, described by its kind and a few settings.
#[derive(Debug)]
pub struct CreateDatabaseRequest {
    pub name: String,
    pub db_type: String,
    pub version: String,
    pub port: i32,
    pub username: Option<String>,
    pub password: String,
    pub database_name: Option<String>,
    pub persist_data: bool,
    pub enable_auth: bool,
    pub max_connections: Option<i32>,
    pub postgres_settings: Option<PostgresSettings>,
    pub mysql_settings: Option<MysqlSettings>,
    pub redis_settings: Option<RedisSettings>,
    pub mongo_settings: Option<MongoSettings>,
}

pub struct CreateDatabaseRequestView {
    pub name: Seq<char>,
    pub db_type: Seq<char>,
    pub version: Seq<char>,
    pub port: i32,
    pub username: Option<Seq<char>>,
    pub password: Seq<char>,
    pub database_name: Option<Seq<char>>,
    pub persist_data: bool,
    pub enable_auth: bool,
    pub max_connections: Option<i32>,
    pub postgres_settings: Option<PostgresSettingsView>,
    pub mysql_settings: Option<MysqlSettingsView>,
    pub redis_settings: Option<RedisSettingsView>,
    pub mongo_settings: Option<MongoSettingsView>,
}

impl View for CreateDatabaseRequest {
    type V = CreateDatabaseRequestView;

    open spec fn view(&self) -> CreateDatabaseRequestView {
        CreateDatabaseRequestView {
            name: self.name@,
            db_type: self.db_type@,
            version: self.version@,
            port: self.port,
            username: self.username.deep_view(),
            password: self.password@,
            database_name: self.database_name.deep_view(),
            persist_data: self.persist_data,
            enable_auth: self.enable_auth,
            max_connections: self.max_connections,
            postgres_settings: self.postgres_settings.deep_view(),
            mysql_settings: self.mysql_settings.deep_view(),
            redis_settings: self.redis_settings.deep_view(),
            mongo_settings: self.mongo_settings.deep_view(),
        }
    }
}

/// Changes to a known database; a field that is `None` stays as it is.
#[derive(Debug)]
pub struct UpdateContainerRequest {
    pub container_id: String,
    pub name: Option<String>,
    pub port: Option<i32>,
    pub username: Option<String>,
    pub password: Option<String>,
    pub database_name: Option<String>,
    pub max_connections: Option<i32>,
    pub enable_auth: Option<bool>,
    pub persist_data: Option<bool>,
    pub restart_policy: Option<String>,
    pub auto_start: Option<bool>,
}

pub struct UpdateContainerRequestView {
    pub container_id: Seq<char>,
    pub name: Option<Seq<char>>,
    pub port: Option<i32>,
    pub username: Option<Seq<char>>,
    pub password: Option<Seq<char>>,
    pub database_name: Option<Seq<char>>,
    pub max_connections: Option<i32>,
    pub enable_auth: Option<bool>,
    pub persist_data: Option<bool>,
    pub restart_policy: Option<Seq<char>>,
    pub auto_start: Option<bool>,
}

impl View for UpdateContainerRequest {
    type V = UpdateContainerRequestView;

    open spec fn view(&self) -> UpdateContainerRequestView {
        UpdateContainerRequestView {
            container_id: self.container_id@,
            name: self.name.deep_view(),
            port: self.port,
            username: self.username.deep_view(),
            password: self.password.deep_view(),
            database_name: self.database_name.deep_view(),
            max_connections: self.max_connections,
            enable_auth: self.enable_auth,
            persist_data: self.persist_data,
            restart_policy: self.restart_policy.deep_view(),
            auto_start: self.auto_start,
        }
    }
}

} // verus!
