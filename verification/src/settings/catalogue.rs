//! The interfaces that the subsystems ask of a settings provider, and the
//! methods that each interface consists of.

use crate::capability::Capability;
use vstd::prelude::*;

verus! {

/// An interface that a settings provider can be asked to implement.
#[derive(Clone, Copy, PartialEq, Eq, Debug, Structural)]
pub enum SettingsTrait {
    /// Name and version of the service.
    ServiceInfo,
    /// Endpoint of the telemetry collector.
    MyTelemetrySettings,
    /// Connection of the remote log sink.
    SeqSettings,
    /// Endpoint of the message bus.
    MyServiceBusSettings,
    /// Endpoint of the cache that is read over a persistent connection.
    MyNoSqlTcpConnectionSettings,
    /// Endpoint of the cache that is written to.
    MyNoSqlWriterSettings,
    /// Connection of the relational store.
    PostgresSettings,
    /// Endpoints of the RPC services that this service calls.
    GrpcClientSettings,
}

/// The name under which an interface declares a method.
#[derive(Clone, Copy, PartialEq, Eq, Debug, Structural)]
pub enum MethodName {
    GetServiceName,
    GetServiceVersion,
    GetTelemetryUrl,
    GetConnString,
    GetHostPort,
    GetUrl,
    GetConnectionString,
    GetGrpcUrl,
}

/// What a settings method yields: the entry of the settings model that it
/// reads. Two methods mean the same if and only if they yield the same entry.
#[derive(Clone, Copy, PartialEq, Eq, Debug, Structural)]
pub enum SettingsField {
    ServiceName,
    ServiceVersion,
    MyTelemetry,
    SeqConnString,
    MySbTcpHostPort,
    MyNoSqlTcpReader,
    MyNoSqlWriter,
    PostgresConnString,
    GrpcUrl,
}

/// One method that a provider has to implement: the interface that
/// declares it, its name there, and what it yields.
#[derive(Clone, Copy, PartialEq, Eq, Debug, Structural)]
pub struct SettingsMethod {
    pub owner: SettingsTrait,
    pub name: MethodName,
    pub field: SettingsField,
}

impl SettingsMethod {
    /// Whether both are declared by the same interface under the same name.
    pub open spec fn same_slot(self, other: SettingsMethod) -> bool {
        self.owner == other.owner && self.name == other.name
    }

    /// Whether both claim the same name of the same interface but mean
    /// different things by it.
    pub open spec fn spec_collides_with(self, other: SettingsMethod) -> bool {
        self.same_slot(other) && self.field != other.field
    }

    /// Whether both are declared by the same interface under the same name.
    pub fn is_same_slot(&self, other: &SettingsMethod) -> (b: bool)
        ensures
            b == self.same_slot(*other),
    {
        self.owner == other.owner && self.name == other.name
    }

    /// Whether both claim the same name of the same interface but mean
    /// different things by it.
    pub fn collides_with(&self, other: &SettingsMethod) -> (b: bool)
        ensures
            b == self.spec_collides_with(*other),
    {
        self.is_same_slot(other) && self.field != other.field
    }
}

impl SettingsTrait {
    /// The methods that the interface declares, in declaration order.
    pub open spec fn spec_methods(self) -> Seq<SettingsMethod> {
        match self {
            SettingsTrait::ServiceInfo => seq![
                SettingsMethod {
                    owner: SettingsTrait::ServiceInfo,
                    name: MethodName::GetServiceName,
                    field: SettingsField::ServiceName,
                },
                SettingsMethod {
                    owner: SettingsTrait::ServiceInfo,
                    name: MethodName::GetServiceVersion,
                    field: SettingsField::ServiceVersion,
                },
            ],
            SettingsTrait::MyTelemetrySettings => seq![
                SettingsMethod {
                    owner: SettingsTrait::MyTelemetrySettings,
                    name: MethodName::GetTelemetryUrl,
                    field: SettingsField::MyTelemetry,
                },
            ],
            SettingsTrait::SeqSettings => seq![
                SettingsMethod {
                    owner: SettingsTrait::SeqSettings,
                    name: MethodName::GetConnString,
                    field: SettingsField::SeqConnString,
                },
            ],
            SettingsTrait::MyServiceBusSettings => seq![
                SettingsMethod {
                    owner: SettingsTrait::MyServiceBusSettings,
                    name: MethodName::GetHostPort,
                    field: SettingsField::MySbTcpHostPort,
                },
            ],
            SettingsTrait::MyNoSqlTcpConnectionSettings => seq![
                SettingsMethod {
                    owner: SettingsTrait::MyNoSqlTcpConnectionSettings,
                    name: MethodName::GetHostPort,
                    field: SettingsField::MyNoSqlTcpReader,
                },
            ],
            SettingsTrait::MyNoSqlWriterSettings => seq![
                SettingsMethod {
                    owner: SettingsTrait::MyNoSqlWriterSettings,
                    name: MethodName::GetUrl,
                    field: SettingsField::MyNoSqlWriter,
                },
            ],
            SettingsTrait::PostgresSettings => seq![
                SettingsMethod {
                    owner: SettingsTrait::PostgresSettings,
                    name: MethodName::GetConnectionString,
                    field: SettingsField::PostgresConnString,
                },
            ],
            SettingsTrait::GrpcClientSettings => seq![
                SettingsMethod {
                    owner: SettingsTrait::GrpcClientSettings,
                    name: MethodName::GetGrpcUrl,
                    field: SettingsField::GrpcUrl,
                },
            ],
        }
    }

    /// The methods that the interface declares, in declaration order.
    pub fn methods(self) -> (v: Vec<SettingsMethod>)
        ensures
            v@ == self.spec_methods(),
            1 <= v@.len() <= 2,
            forall|i: int| 0 <= i < v@.len() ==> is_declared(#[trigger] v@[i]) && v@[i].owner == self,
    {
        let v = match self {
            SettingsTrait::ServiceInfo => vec![
                SettingsMethod {
                    owner: SettingsTrait::ServiceInfo,
                    name: MethodName::GetServiceName,
                    field: SettingsField::ServiceName,
                },
                SettingsMethod {
                    owner: SettingsTrait::ServiceInfo,
                    name: MethodName::GetServiceVersion,
                    field: SettingsField::ServiceVersion,
                },
            ],
            SettingsTrait::MyTelemetrySettings => vec![
                SettingsMethod {
                    owner: SettingsTrait::MyTelemetrySettings,
                    name: MethodName::GetTelemetryUrl,
                    field: SettingsField::MyTelemetry,
                },
            ],
            SettingsTrait::SeqSettings => vec![
                SettingsMethod {
                    owner: SettingsTrait::SeqSettings,
                    name: MethodName::GetConnString,
                    field: SettingsField::SeqConnString,
                },
            ],
            SettingsTrait::MyServiceBusSettings => vec![
                SettingsMethod {
                    owner: SettingsTrait::MyServiceBusSettings,
                    name: MethodName::GetHostPort,
                    field: SettingsField::MySbTcpHostPort,
                },
            ],
            SettingsTrait::MyNoSqlTcpConnectionSettings => vec![
                SettingsMethod {
                    owner: SettingsTrait::MyNoSqlTcpConnectionSettings,
                    name: MethodName::GetHostPort,
                    field: SettingsField::MyNoSqlTcpReader,
                },
            ],
            SettingsTrait::MyNoSqlWriterSettings => vec![
                SettingsMethod {
                    owner: SettingsTrait::MyNoSqlWriterSettings,
                    name: MethodName::GetUrl,
                    field: SettingsField::MyNoSqlWriter,
                },
            ],
            SettingsTrait::PostgresSettings => vec![
                SettingsMethod {
                    owner: SettingsTrait::PostgresSettings,
                    name: MethodName::GetConnectionString,
                    field: SettingsField::PostgresConnString,
                },
            ],
            SettingsTrait::GrpcClientSettings => vec![
                SettingsMethod {
                    owner: SettingsTrait::GrpcClientSettings,
                    name: MethodName::GetGrpcUrl,
                    field: SettingsField::GrpcUrl,
                },
            ],
        };
        assert(v@ =~= self.spec_methods());
        v
    }

    /// All interfaces, universal ones first, then in the canonical order of
    /// the capabilities that ask for them.
    pub fn all() -> (v: Vec<SettingsTrait>)
        ensures
            v@ == all_settings_traits(),
    {
        let v = vec![
            SettingsTrait::ServiceInfo,
            SettingsTrait::MyTelemetrySettings,
            SettingsTrait::SeqSettings,
            SettingsTrait::MyServiceBusSettings,
            SettingsTrait::MyNoSqlTcpConnectionSettings,
            SettingsTrait::MyNoSqlWriterSettings,
            SettingsTrait::PostgresSettings,
            SettingsTrait::GrpcClientSettings,
        ];
        assert(v@ =~= all_settings_traits());
        v
    }

    /// Where the interface stands among all interfaces.
    pub open spec fn spec_position(self) -> int {
        match self {
            SettingsTrait::ServiceInfo => 0,
            SettingsTrait::MyTelemetrySettings => 1,
            SettingsTrait::SeqSettings => 2,
            SettingsTrait::MyServiceBusSettings => 3,
            SettingsTrait::MyNoSqlTcpConnectionSettings => 4,
            SettingsTrait::MyNoSqlWriterSettings => 5,
            SettingsTrait::PostgresSettings => 6,
            SettingsTrait::GrpcClientSettings => 7,
        }
    }

    /// The capability that asks for the interface, if one does.
    pub open spec fn spec_capability(self) -> Option<Capability> {
        match self {
            SettingsTrait::ServiceInfo => None,
            SettingsTrait::MyTelemetrySettings => Some(Capability::Telemetry),
            SettingsTrait::SeqSettings => Some(Capability::Logging),
            SettingsTrait::MyServiceBusSettings => Some(Capability::MessageBus),
            SettingsTrait::MyNoSqlTcpConnectionSettings => Some(Capability::CacheReader),
            SettingsTrait::MyNoSqlWriterSettings => Some(Capability::CacheWriter),
            SettingsTrait::PostgresSettings => Some(Capability::RelationalStore),
            SettingsTrait::GrpcClientSettings => Some(Capability::Rpc),
        }
    }

    /// The capability that asks for the interface, if one does.
    pub fn capability(self) -> (c: Option<Capability>)
        ensures
            c == self.spec_capability(),
            forall|d: Capability| d.spec_settings_trait() == self <==> c == Some(d),
    {
        match self {
            SettingsTrait::ServiceInfo => None,
            SettingsTrait::MyTelemetrySettings => Some(Capability::Telemetry),
            SettingsTrait::SeqSettings => Some(Capability::Logging),
            SettingsTrait::MyServiceBusSettings => Some(Capability::MessageBus),
            SettingsTrait::MyNoSqlTcpConnectionSettings => Some(Capability::CacheReader),
            SettingsTrait::MyNoSqlWriterSettings => Some(Capability::CacheWriter),
            SettingsTrait::PostgresSettings => Some(Capability::RelationalStore),
            SettingsTrait::GrpcClientSettings => Some(Capability::Rpc),
        }
    }

    /// Whether an accessor for the methods of the interface is generated:
    /// for the log sink, the message bus, both sides of the cache and the
    /// relational store. The identity of the service comes from the
    /// package, the RPC endpoints are looked up by the name of each
    /// client, and the telemetry endpoint is left to the provider.
    pub open spec fn spec_is_generated(self) -> bool {
        self != SettingsTrait::ServiceInfo && self != SettingsTrait::GrpcClientSettings && self
            != SettingsTrait::MyTelemetrySettings
    }

    /// Whether an accessor for the methods of the interface is generated.
    pub fn is_generated(self) -> (b: bool)
        ensures
            b == self.spec_is_generated(),
    {
        match self {
            SettingsTrait::ServiceInfo => false,
            SettingsTrait::GrpcClientSettings => false,
            SettingsTrait::MyTelemetrySettings => false,
            _ => true,
        }
    }

    /// Whether every provider has to implement the interface, whatever the
    /// build enables.
    pub open spec fn spec_is_universal(self) -> bool {
        self == SettingsTrait::ServiceInfo || self == SettingsTrait::MyTelemetrySettings || self
            == SettingsTrait::SeqSettings
    }

    /// Whether every provider has to implement the interface, whatever the
    /// build enables.
    pub fn is_universal(self) -> (b: bool)
        ensures
            b == self.spec_is_universal(),
    {
        match self {
            SettingsTrait::ServiceInfo => true,
            SettingsTrait::MyTelemetrySettings => true,
            SettingsTrait::SeqSettings => true,
            _ => false,
        }
    }
}

/// All interfaces, universal ones first, then in the canonical order of the
/// capabilities that ask for them.
pub open spec fn all_settings_traits() -> Seq<SettingsTrait> {
    seq![
        SettingsTrait::ServiceInfo,
        SettingsTrait::MyTelemetrySettings,
        SettingsTrait::SeqSettings,
        SettingsTrait::MyServiceBusSettings,
        SettingsTrait::MyNoSqlTcpConnectionSettings,
        SettingsTrait::MyNoSqlWriterSettings,
        SettingsTrait::PostgresSettings,
        SettingsTrait::GrpcClientSettings,
    ]
}

/// Whether `m` is a method as its interface declares it.
pub open spec fn is_declared(m: SettingsMethod) -> bool {
    m.owner.spec_methods().contains(m)
}

/// The interfaces that every provider has to implement, in the order in
/// which a contract lists them.
pub open spec fn universal_traits() -> Seq<SettingsTrait> {
    seq![SettingsTrait::ServiceInfo, SettingsTrait::MyTelemetrySettings, SettingsTrait::SeqSettings]
}

impl Capability {
    /// The interface that a capability asks of the settings provider.
    pub open spec fn spec_settings_trait(self) -> SettingsTrait {
        match self {
            Capability::Telemetry => SettingsTrait::MyTelemetrySettings,
            Capability::Logging => SettingsTrait::SeqSettings,
            Capability::MessageBus => SettingsTrait::MyServiceBusSettings,
            Capability::CacheReader => SettingsTrait::MyNoSqlTcpConnectionSettings,
            Capability::CacheWriter => SettingsTrait::MyNoSqlWriterSettings,
            Capability::RelationalStore => SettingsTrait::PostgresSettings,
            Capability::Rpc => SettingsTrait::GrpcClientSettings,
        }
    }

    /// The interface that a capability asks of the settings provider.
    pub fn settings_trait(self) -> (t: SettingsTrait)
        ensures
            t == self.spec_settings_trait(),
    {
        match self {
            Capability::Telemetry => SettingsTrait::MyTelemetrySettings,
            Capability::Logging => SettingsTrait::SeqSettings,
            Capability::MessageBus => SettingsTrait::MyServiceBusSettings,
            Capability::CacheReader => SettingsTrait::MyNoSqlTcpConnectionSettings,
            Capability::CacheWriter => SettingsTrait::MyNoSqlWriterSettings,
            Capability::RelationalStore => SettingsTrait::PostgresSettings,
            Capability::Rpc => SettingsTrait::GrpcClientSettings,
        }
    }
}

/// Two declared methods never collide: an interface declares each of its
/// names once.
pub proof fn lemma_declared_methods_agree(a: SettingsMethod, b: SettingsMethod)
    requires
        is_declared(a),
        is_declared(b),
        a.same_slot(b),
    ensures
        a == b,
{
    let la = a.owner.spec_methods();
    let ia = choose|i: int| 0 <= i < la.len() && la[i] == a;
    let ib = choose|i: int| 0 <= i < la.len() && la[i] == b;
    assert(la[ia] == a && la[ib] == b);
}

} // verus!
