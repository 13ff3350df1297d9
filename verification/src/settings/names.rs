//! The names under which generated code and log lines refer to the
//! capabilities, to the interfaces and to what they declare.

use crate::capability::Capability;
use crate::settings::catalogue::{MethodName, SettingsField, SettingsTrait};
use vstd::prelude::*;

verus! {

impl Capability {
    /// The name under which the subsystem of the capability is logged.
    pub open spec fn spec_name(self) -> Seq<char> {
        match self {
            Capability::Telemetry => "telemetry"@,
            Capability::Logging => "logging"@,
            Capability::MessageBus => "message-bus"@,
            Capability::CacheReader => "cache-reader"@,
            Capability::CacheWriter => "cache-writer"@,
            Capability::RelationalStore => "relational-store"@,
            Capability::Rpc => "rpc"@,
        }
    }

    /// The name under which the subsystem of the capability is logged.
    pub fn name(self) -> (name: &'static str)
        ensures
            name@ == self.spec_name(),
    {
        match self {
            Capability::Telemetry => "telemetry",
            Capability::Logging => "logging",
            Capability::MessageBus => "message-bus",
            Capability::CacheReader => "cache-reader",
            Capability::CacheWriter => "cache-writer",
            Capability::RelationalStore => "relational-store",
            Capability::Rpc => "rpc",
        }
    }
}

impl SettingsTrait {
    /// The name of the interface.
    pub open spec fn spec_name(self) -> Seq<char> {
        match self {
            SettingsTrait::ServiceInfo => "ServiceInfo"@,
            SettingsTrait::MyTelemetrySettings => "MyTelemetrySettings"@,
            SettingsTrait::SeqSettings => "SeqSettings"@,
            SettingsTrait::MyServiceBusSettings => "MyServiceBusSettings"@,
            SettingsTrait::MyNoSqlTcpConnectionSettings => "MyNoSqlTcpConnectionSettings"@,
            SettingsTrait::MyNoSqlWriterSettings => "MyNoSqlWriterSettings"@,
            SettingsTrait::PostgresSettings => "PostgresSettings"@,
            SettingsTrait::GrpcClientSettings => "GrpcClientSettings"@,
        }
    }

    /// The name of the interface.
    pub fn name(self) -> (name: &'static str)
        ensures
            name@ == self.spec_name(),
    {
        match self {
            SettingsTrait::ServiceInfo => "ServiceInfo",
            SettingsTrait::MyTelemetrySettings => "MyTelemetrySettings",
            SettingsTrait::SeqSettings => "SeqSettings",
            SettingsTrait::MyServiceBusSettings => "MyServiceBusSettings",
            SettingsTrait::MyNoSqlTcpConnectionSettings => "MyNoSqlTcpConnectionSettings",
            SettingsTrait::MyNoSqlWriterSettings => "MyNoSqlWriterSettings",
            SettingsTrait::PostgresSettings => "PostgresSettings",
            SettingsTrait::GrpcClientSettings => "GrpcClientSettings",
        }
    }

    /// The module from which the interface is imported.
    pub open spec fn spec_import_module(self) -> Seq<char> {
        match self {
            SettingsTrait::ServiceInfo => "service_sdk"@,
            SettingsTrait::MyTelemetrySettings => "service_sdk::my_telemetry"@,
            SettingsTrait::SeqSettings => "service_sdk::my_logger::my_seq_logger"@,
            SettingsTrait::MyServiceBusSettings => "service_sdk::my_service_bus::client"@,
            SettingsTrait::MyNoSqlTcpConnectionSettings => "service_sdk::my_no_sql_sdk::reader"@,
            SettingsTrait::MyNoSqlWriterSettings => "service_sdk::my_no_sql_sdk::data_writer"@,
            SettingsTrait::PostgresSettings => "service_sdk::my_postgres"@,
            SettingsTrait::GrpcClientSettings => "service_sdk::my_grpc_extensions"@,
        }
    }

    /// The module from which the interface is imported.
    pub fn import_module(self) -> (path: &'static str)
        ensures
            path@ == self.spec_import_module(),
    {
        match self {
            SettingsTrait::ServiceInfo => "service_sdk",
            SettingsTrait::MyTelemetrySettings => "service_sdk::my_telemetry",
            SettingsTrait::SeqSettings => "service_sdk::my_logger::my_seq_logger",
            SettingsTrait::MyServiceBusSettings => "service_sdk::my_service_bus::client",
            SettingsTrait::MyNoSqlTcpConnectionSettings => "service_sdk::my_no_sql_sdk::reader",
            SettingsTrait::MyNoSqlWriterSettings => "service_sdk::my_no_sql_sdk::data_writer",
            SettingsTrait::PostgresSettings => "service_sdk::my_postgres",
            SettingsTrait::GrpcClientSettings => "service_sdk::my_grpc_extensions",
        }
    }
}

impl MethodName {
    /// The identifier of the method.
    pub open spec fn spec_name(self) -> Seq<char> {
        match self {
            MethodName::GetServiceName => "get_service_name"@,
            MethodName::GetServiceVersion => "get_service_version"@,
            MethodName::GetTelemetryUrl => "get_telemetry_url"@,
            MethodName::GetConnString => "get_conn_string"@,
            MethodName::GetHostPort => "get_host_port"@,
            MethodName::GetUrl => "get_url"@,
            MethodName::GetConnectionString => "get_connection_string"@,
            MethodName::GetGrpcUrl => "get_grpc_url"@,
        }
    }

    /// The identifier of the method.
    pub fn name(self) -> (name: &'static str)
        ensures
            name@ == self.spec_name(),
    {
        match self {
            MethodName::GetServiceName => "get_service_name",
            MethodName::GetServiceVersion => "get_service_version",
            MethodName::GetTelemetryUrl => "get_telemetry_url",
            MethodName::GetConnString => "get_conn_string",
            MethodName::GetHostPort => "get_host_port",
            MethodName::GetUrl => "get_url",
            MethodName::GetConnectionString => "get_connection_string",
            MethodName::GetGrpcUrl => "get_grpc_url",
        }
    }
}

impl SettingsField {
    /// The identifier of the entry in the settings model.
    pub open spec fn spec_name(self) -> Seq<char> {
        match self {
            SettingsField::ServiceName => "service_name"@,
            SettingsField::ServiceVersion => "service_version"@,
            SettingsField::MyTelemetry => "my_telemetry"@,
            SettingsField::SeqConnString => "seq_conn_string"@,
            SettingsField::MySbTcpHostPort => "my_sb_tcp_host_port"@,
            SettingsField::MyNoSqlTcpReader => "my_no_sql_tcp_reader"@,
            SettingsField::MyNoSqlWriter => "my_no_sql_writer"@,
            SettingsField::PostgresConnString => "postgres_conn_string"@,
            SettingsField::GrpcUrl => "grpc_url"@,
        }
    }

    /// The identifier of the entry in the settings model.
    pub fn name(self) -> (name: &'static str)
        ensures
            name@ == self.spec_name(),
    {
        match self {
            SettingsField::ServiceName => "service_name",
            SettingsField::ServiceVersion => "service_version",
            SettingsField::MyTelemetry => "my_telemetry",
            SettingsField::SeqConnString => "seq_conn_string",
            SettingsField::MySbTcpHostPort => "my_sb_tcp_host_port",
            SettingsField::MyNoSqlTcpReader => "my_no_sql_tcp_reader",
            SettingsField::MyNoSqlWriter => "my_no_sql_writer",
            SettingsField::PostgresConnString => "postgres_conn_string",
            SettingsField::GrpcUrl => "grpc_url",
        }
    }
}

} // verus!
