//! What holds of loading a plugin: what it keeps of its config, how it presents
//! itself and why it is refused.
use vstd::prelude::*;

use crate::config;
use crate::config::{ConfigFields, ConfigModel};
use crate::gss::{AcceptModel, CredUsage, NameType};
use crate::identity::PluginClass;
use crate::plugin;
use crate::plugin::{LoadError, StepModel, PLUGIN_ID};

verus! {

/// A loaded plugin keeps the service, the treatment of realms and the trust
/// posture that its config says.
pub proof fn law_plugin_keeps_config(
    config: ConfigModel,
    version: Seq<char>,
    source_module: Seq<char>,
)
    ensures
        plugin::plugin_of(config, version, source_module).service_name == config.service_name,
        plugin::plugin_of(config, version, source_module).strip_realm == config.strip_realm,
        plugin::plugin_of(config, version, source_module).resolution == config.resolution,
        plugin::plugin_of(config, version, source_module).manifest == plugin::manifest_of(
            version,
            source_module,
        ),
{
}

/// Every identity of a plugin loaded from accepted fields has the trust level and
/// the label that the fields give, or the defaults of these; with `strip_realm`
/// at `false` its subject is the full principal.
pub proof fn law_fields_reach_identities(
    fields: ConfigFields,
    version: Seq<char>,
    source_module: Seq<char>,
    principal: Seq<char>,
)
    requires
        config::config_fault(fields.meaning(), true) is None,
    ensures
        ({
            let loaded = plugin::plugin_of(fields.meaning(), version, source_module);
            let identity = plugin::identity_of(loaded, principal);
            &&& fields.resolution matches Some(r) ==> {
                &&& r.trust_level matches Some(t) ==> identity.trust_level == t@ && identity.kind
                    == t@
                &&& r.auth_provider_label matches Some(l) ==> identity.auth_provider == Some(l@)
                &&& r.trust_level is None ==> identity.trust_level == "verified"@
                &&& r.auth_provider_label is None ==> identity.auth_provider == Some("kerberos"@)
            }
            &&& fields.resolution is None ==> identity.trust_level == "verified"@
                && identity.auth_provider == Some("kerberos"@)
            &&& fields.strip_realm == Some(false) ==> identity.subject_id == Some(principal)
        }),
{
}

/// A plugin loaded with a service starts every accept with the import of its name
/// as that of a hostbased service; one loaded without any, with the credential of
/// any principal in the keytab.
pub proof fn law_configured_service_starts_every_accept(
    fields: ConfigFields,
    version: Seq<char>,
    source_module: Seq<char>,
    headers: Seq<(Seq<char>, Seq<char>)>,
)
    ensures
        ({
            let loaded = plugin::plugin_of(fields.meaning(), version, source_module);
            plugin::resolve_step(loaded, headers) matches StepModel::Accept(state)
                ==> match fields.service_name {
                Some(s) => state matches AcceptModel::ImportName { service, name_type, .. } && service
                    == s@ && name_type == NameType::HostbasedService,
                None => state matches AcceptModel::AcquireCred { request, .. }
                    && request.for_service is None && request.usage == CredUsage::Accept,
            }
        }),
{
}

/// The manifest tells the plugin's id, name and class, the version and the crate
/// that it was built from, and asks for no capability.
pub proof fn law_manifest(version: Seq<char>, source_module: Seq<char>)
    ensures
        ({
            let m = plugin::manifest_of(version, source_module);
            let none = Seq::<Seq<char>>::empty();
            &&& PLUGIN_ID@ == "dev.mcpg.identity.kerberos"@
            &&& m.id == "dev.mcpg.identity.kerberos"@
            &&& m.version == version
            &&& m.name == "Kerberos / SPNEGO Identity Resolver"@
            &&& m.plugin_class == PluginClass::IdentityProvider
            &&& m.protocol_version == "1.0"@
            &&& m.license is None
            &&& m.required_capabilities == none
            &&& m.tags == none
            &&& m.provides == none
            &&& m.provides_schemes == none
            &&& m.module_path_prefix == plugin::crate_of(source_module)
            &&& m.backend_profile is None
        }),
{
}

/// `path` holds two colons, one after the other, at `i`.
pub open spec fn colons_at(path: Seq<char>, i: int) -> bool {
    0 <= i && i + 1 < path.len() && path[i] == ':' && path[i + 1] == ':'
}

/// The crate of a module path is the path up to its first two colons, and the
/// whole path where it has none.
pub proof fn law_crate_of_path(path: Seq<char>)
    ensures
        ({
            let head = plugin::crate_of(path);
            &&& head.len() <= path.len()
            &&& head == path.take(head.len() as int)
            &&& forall|i: int| 0 <= i < head.len() ==> !#[trigger] colons_at(path, i)
            &&& head == path || colons_at(path, head.len() as int)
        }),
{
    if exists|i: int| plugin::is_first_separator(path, i) {
        let c = choose|i: int| plugin::is_first_separator(path, i);
        assert(plugin::is_first_separator(path, c));
        assert(plugin::crate_of(path) == path.take(c));
        assert(colons_at(path, c));
        assert forall|i: int| 0 <= i < c implies !#[trigger] colons_at(path, i) by {
            assert(path[i] != ':' || path[i + 1] != ':');
        }
    } else {
        assert(path =~= path.take(path.len() as int));
        assert forall|i: int| 0 <= i < path.len() implies !#[trigger] colons_at(path, i) by {
            lemma_no_colons(path, i);
        }
    }
}

/// A path without a first separator holds no two colons up to `i`.
proof fn lemma_no_colons(path: Seq<char>, i: int)
    requires
        0 <= i < path.len(),
        forall|k: int| !plugin::is_first_separator(path, k),
    ensures
        forall|k: int| 0 <= k <= i ==> !#[trigger] colons_at(path, k),
    decreases i,
{
    if i > 0 {
        lemma_no_colons(path, i - 1);
    }
    if colons_at(path, i) {
        assert forall|j: int| #![trigger path[j]] 0 <= j < i implies path[j] != ':' || path[j + 1]
            != ':' by {
            assert(!colons_at(path, j));
        }
        assert(plugin::is_first_separator(path, i));
    }
}

/// What a plugin that does not load says: of its config, the flaw between the
/// words that refuse it; of its keytab, the reason. It says nothing else.
pub proof fn law_refusal_texts(error: LoadError, m: Seq<char>)
    ensures
        error matches LoadError::Config(e) ==> (error.says(m) <==> exists|flaw: Seq<char>| #[trigger]
            e.says(flaw) && m == "kerberos identity config parse failed: "@ + flaw
                + ". A misconfigured identity resolver is a security hole; refusing to load."@),
        error matches LoadError::Keytab(flaw) ==> (error.says(m) <==> m
            == "kerberos identity: registering keytab failed: "@ + flaw@),
{
}

} // verus!
