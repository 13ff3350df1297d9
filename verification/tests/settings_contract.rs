use service_sdk::service_info::{generate_sdk_settings_traits, ServiceIdentity, ServiceInfo};
use service_sdk::settings::catalogue::{MethodName, SettingsField, SettingsMethod, SettingsTrait};
use service_sdk::settings::contract::{ContractConflict, SettingsContract};
use service_sdk::settings::synthesis::{
    auto_generate_settings_traits, generate_settings_signature, use_settings,
};
use service_sdk::{Capability, CapabilitySet};

fn method(owner: SettingsTrait, name: MethodName, field: SettingsField) -> SettingsMethod {
    SettingsMethod { owner, name, field }
}

fn universal() -> Vec<SettingsMethod> {
    vec![
        method(SettingsTrait::ServiceInfo, MethodName::GetServiceName, SettingsField::ServiceName),
        method(
            SettingsTrait::ServiceInfo,
            MethodName::GetServiceVersion,
            SettingsField::ServiceVersion,
        ),
        method(
            SettingsTrait::MyTelemetrySettings,
            MethodName::GetTelemetryUrl,
            SettingsField::MyTelemetry,
        ),
        method(SettingsTrait::SeqSettings, MethodName::GetConnString, SettingsField::SeqConnString),
    ]
}

fn bus() -> SettingsMethod {
    method(
        SettingsTrait::MyServiceBusSettings,
        MethodName::GetHostPort,
        SettingsField::MySbTcpHostPort,
    )
}

fn cache_reader() -> SettingsMethod {
    method(
        SettingsTrait::MyNoSqlTcpConnectionSettings,
        MethodName::GetHostPort,
        SettingsField::MyNoSqlTcpReader,
    )
}

#[test]
fn contract_of_no_capability_is_universal() {
    let contract = generate_settings_signature(&CapabilitySet::empty());
    assert_eq!(contract.methods(), universal());
}

#[test]
fn contract_of_message_bus_adds_its_interface_only() {
    let enabled = CapabilitySet::from_list(&vec![Capability::MessageBus]);
    let contract = generate_settings_signature(&enabled);
    let mut expected = universal();
    expected.push(bus());
    assert_eq!(contract.methods(), expected);
    assert!(contract.requires_trait(SettingsTrait::MyServiceBusSettings));
    assert!(!contract.requires_trait(SettingsTrait::PostgresSettings));
    assert!(!contract.requires_trait(SettingsTrait::MyNoSqlTcpConnectionSettings));
    assert!(!contract.requires_method(&cache_reader()));
}

#[test]
fn contract_of_every_capability_lists_every_interface_once() {
    let enabled = CapabilitySet::from_list(&Capability::all());
    let contract = generate_settings_signature(&enabled);
    let listed = contract.methods();
    assert_eq!(listed.len(), 9);
    for (i, a) in listed.iter().enumerate() {
        for b in listed.iter().skip(i + 1) {
            assert_ne!(a, b);
        }
    }
    for t in SettingsTrait::all() {
        assert!(contract.requires_trait(t));
    }
}

#[test]
fn capabilities_that_ask_for_universal_interfaces_add_nothing() {
    let enabled = CapabilitySet::from_list(&vec![Capability::Telemetry, Capability::Logging]);
    let contract = generate_settings_signature(&enabled);
    assert_eq!(contract.methods(), universal());
    assert_eq!(contract.len(), 4);
}

#[test]
fn contract_does_not_depend_on_enable_order() {
    let forward = CapabilitySet::from_list(&vec![
        Capability::MessageBus,
        Capability::CacheReader,
        Capability::Rpc,
    ]);
    let backward = CapabilitySet::from_list(&vec![
        Capability::Rpc,
        Capability::CacheReader,
        Capability::MessageBus,
        Capability::Rpc,
    ]);
    assert_eq!(forward, backward);
    assert_eq!(
        generate_settings_signature(&forward).methods(),
        generate_settings_signature(&backward).methods()
    );
}

#[test]
fn same_method_name_in_two_interfaces_is_no_conflict() {
    let enabled = CapabilitySet::from_list(&vec![Capability::MessageBus, Capability::CacheReader]);
    let contract = generate_settings_signature(&enabled);
    assert!(contract.requires_method(&bus()));
    assert!(contract.requires_method(&cache_reader()));
    assert!(!bus().collides_with(&cache_reader()));
}

#[test]
fn requiring_a_method_twice_lists_it_once() {
    let mut contract = SettingsContract::new();
    assert_eq!(contract.require(bus()), Ok(()));
    assert_eq!(contract.require(bus()), Ok(()));
    assert_eq!(contract.methods(), vec![bus()]);
}

#[test]
fn colliding_requirement_is_reported_and_changes_nothing() {
    let mut contract = generate_settings_signature(&CapabilitySet::empty());
    let existing =
        method(SettingsTrait::SeqSettings, MethodName::GetConnString, SettingsField::SeqConnString);
    let clash = method(
        SettingsTrait::SeqSettings,
        MethodName::GetConnString,
        SettingsField::PostgresConnString,
    );
    assert!(existing.collides_with(&clash));
    assert_eq!(contract.require(clash), Err(ContractConflict { existing, requested: clash }));
    assert_eq!(contract.methods(), universal());
}

#[test]
fn require_all_is_all_or_nothing() {
    let mut contract = SettingsContract::new();
    assert_eq!(contract.require(bus()), Ok(()));
    let clash = method(
        SettingsTrait::MyServiceBusSettings,
        MethodName::GetHostPort,
        SettingsField::MyNoSqlTcpReader,
    );
    let r = contract.require_all(&vec![cache_reader(), clash]);
    assert_eq!(r, Err(ContractConflict { existing: bus(), requested: clash }));
    assert_eq!(contract.methods(), vec![bus()]);
    assert_eq!(contract.require_all(&vec![cache_reader(), bus()]), Ok(()));
    assert_eq!(contract.methods(), vec![bus(), cache_reader()]);
}

#[test]
fn require_trait_adds_declared_methods() {
    let mut contract = SettingsContract::new();
    assert_eq!(contract.require_trait(SettingsTrait::ServiceInfo), Ok(()));
    assert_eq!(contract.len(), 2);
    assert_eq!(contract.get(1), Some(universal()[1]));
    assert_eq!(contract.get(2), None);
}

#[test]
fn accessors_are_generated_for_what_has_a_settings_entry() {
    let enabled = CapabilitySet::from_list(&vec![
        Capability::Rpc,
        Capability::RelationalStore,
        Capability::MessageBus,
    ]);
    let accessors = auto_generate_settings_traits(&enabled);
    assert_eq!(
        accessors,
        vec![
            universal()[3],
            bus(),
            method(
                SettingsTrait::PostgresSettings,
                MethodName::GetConnectionString,
                SettingsField::PostgresConnString,
            ),
        ]
    );
}

#[test]
fn imports_follow_the_contract() {
    assert_eq!(use_settings(&CapabilitySet::empty()), vec![SettingsTrait::SeqSettings]);
    assert_eq!(
        use_settings(&CapabilitySet::from_list(&vec![Capability::Telemetry])),
        vec![SettingsTrait::SeqSettings]
    );
    let enabled = CapabilitySet::from_list(&vec![Capability::Rpc, Capability::CacheWriter]);
    assert_eq!(
        use_settings(&enabled),
        vec![
            SettingsTrait::SeqSettings,
            SettingsTrait::MyNoSqlWriterSettings,
            SettingsTrait::GrpcClientSettings,
        ]
    );
}

#[test]
fn accessors_of_every_feature_set() {
    let seq = universal()[3];
    assert_eq!(auto_generate_settings_traits(&CapabilitySet::empty()), vec![seq]);
    assert_eq!(
        auto_generate_settings_traits(&CapabilitySet::from_list(&vec![
            Capability::Telemetry,
            Capability::Logging,
            Capability::Rpc,
        ])),
        vec![seq]
    );
    let all = auto_generate_settings_traits(&CapabilitySet::from_list(&Capability::all()));
    let owners: Vec<SettingsTrait> = all.iter().map(|m| m.owner).collect();
    assert_eq!(
        owners,
        vec![
            SettingsTrait::SeqSettings,
            SettingsTrait::MyServiceBusSettings,
            SettingsTrait::MyNoSqlTcpConnectionSettings,
            SettingsTrait::MyNoSqlWriterSettings,
            SettingsTrait::PostgresSettings,
        ]
    );
    let fields: Vec<&str> = all.iter().map(|m| m.field.name()).collect();
    assert_eq!(
        fields,
        vec![
            "seq_conn_string",
            "my_sb_tcp_host_port",
            "my_no_sql_tcp_reader",
            "my_no_sql_writer",
            "postgres_conn_string",
        ]
    );
}

#[test]
fn capability_descriptor_round_trip() {
    let s = CapabilitySet::empty().with(Capability::Rpc).with(Capability::Rpc);
    assert!(s.contains(Capability::Rpc));
    assert!(!s.contains(Capability::Logging));
    assert_eq!(s, CapabilitySet::from_list(&vec![Capability::Rpc]));
    for (i, c) in Capability::all().into_iter().enumerate() {
        assert_eq!(c.index(), i);
        assert_eq!(Capability::from_index(i), Some(c));
        assert_eq!(c.settings_trait().capability(), Some(c));
    }
    assert_eq!(Capability::from_index(7), None);
    assert_eq!(SettingsTrait::ServiceInfo.capability(), None);
    assert!(SettingsTrait::ServiceInfo.is_universal());
    assert!(!SettingsTrait::PostgresSettings.is_universal());
}

#[test]
fn service_identity_from_package() {
    let plain = generate_sdk_settings_traits("billing", "1.4.2", None);
    assert_eq!(plain.get_service_name(), "billing");
    assert_eq!(plain.get_service_version(), "1.4.2");
    let suffixed = generate_sdk_settings_traits("billing", "1.4.2", Some("eu"));
    assert_eq!(suffixed.get_service_name(), "billing-eu");
    let empty_suffix = generate_sdk_settings_traits("billing", "1.4.2", Some(""));
    assert_eq!(empty_suffix.get_service_name(), "billing-");
    let direct = ServiceIdentity { name: "a".to_string(), version: "b".to_string() };
    assert_eq!(direct.get_service_name(), "a");
}

#[test]
fn names_of_the_catalogue() {
    assert_eq!(Capability::MessageBus.name(), "message-bus");
    assert_eq!(Capability::Rpc.name(), "rpc");
    assert_eq!(SettingsTrait::SeqSettings.name(), "SeqSettings");
    assert_eq!(
        SettingsTrait::MyServiceBusSettings.import_module(),
        "service_sdk::my_service_bus::client"
    );
    assert_eq!(MethodName::GetHostPort.name(), "get_host_port");
    assert_eq!(SettingsField::MySbTcpHostPort.name(), "my_sb_tcp_host_port");
    assert_eq!(SettingsField::SeqConnString.name(), "seq_conn_string");
}

#[test]
fn interfaces_of_a_contract() {
    let enabled = CapabilitySet::from_list(&vec![Capability::CacheWriter, Capability::Logging]);
    let contract = generate_settings_signature(&enabled);
    assert_eq!(
        contract.traits(),
        vec![
            SettingsTrait::ServiceInfo,
            SettingsTrait::MyTelemetrySettings,
            SettingsTrait::SeqSettings,
            SettingsTrait::MyNoSqlWriterSettings,
        ]
    );
}

#[test]
fn provider_is_held_to_the_contract() {
    let enabled = CapabilitySet::from_list(&vec![Capability::MessageBus, Capability::Rpc]);
    let contract = generate_settings_signature(&enabled);
    let mut provided = vec![
        SettingsTrait::GrpcClientSettings,
        SettingsTrait::SeqSettings,
        SettingsTrait::ServiceInfo,
        SettingsTrait::MyTelemetrySettings,
    ];
    assert_eq!(contract.first_unsatisfied(&provided), Some(SettingsTrait::MyServiceBusSettings));
    provided.push(SettingsTrait::MyServiceBusSettings);
    assert_eq!(contract.first_unsatisfied(&provided), None);
    provided.push(SettingsTrait::PostgresSettings);
    assert_eq!(contract.first_unsatisfied(&provided), None);
    assert_eq!(contract.first_unsatisfied(&Vec::new()), Some(SettingsTrait::ServiceInfo));
    assert_eq!(SettingsContract::new().first_unsatisfied(&Vec::new()), None);
}
