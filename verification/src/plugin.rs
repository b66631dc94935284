//! The identity plugin: from a config to a plugin, and from request headers to
//! the caller's identity.
use std::sync::Arc;

use vstd::prelude::*;

use crate::attributes::Attributes;
use crate::config::{ConfigError, ConfigFields, KerberosConfig, ResolutionConfig};
use crate::config::{ConfigModel, ResolutionModel};
use crate::gss;
use crate::gss::{AcceptModel, AcceptState, GssOutcome, GssResult, KeytabRegistration};
use crate::headers;
use crate::identity::{IdentityModel, ManifestModel, ResolutionOutcome};
use crate::identity::{IdentityResolution, PluginClass, PluginIdentity, PluginManifest};
use crate::token;

verus! {

/// The id under which the plugin is known.
pub const PLUGIN_ID: &'static str = "dev.mcpg.identity.kerberos";

struct Inner {
    manifest: PluginManifest,
    service_name: Option<String>,
    strip_realm: bool,
    resolution: ResolutionConfig,
}

/// Resolves caller identity from `Authorization: Negotiate <b64 GSSAPI token>`.
pub struct KerberosIdentityPlugin {
    inner: Arc<Inner>,
}

/// A [`KerberosIdentityPlugin`] with its texts as sequences.
pub struct PluginModel {
    pub manifest: ManifestModel,
    pub service_name: Option<Seq<char>>,
    pub strip_realm: bool,
    pub resolution: ResolutionModel,
}

impl View for KerberosIdentityPlugin {
    type V = PluginModel;

    closed spec fn view(&self) -> PluginModel {
        PluginModel {
            manifest: self.inner.manifest@,
            service_name: self.inner.service_name.deep_view(),
            strip_realm: self.inner.strip_realm,
            resolution: self.inner.resolution@,
        }
    }
}

/// A plugin whose config is accepted and whose keytab is yet to be registered.
pub struct PendingPlugin {
    registration: KeytabRegistration,
    plugin: KerberosIdentityPlugin,
}

/// Why a plugin does not load.
#[derive(Debug)]
pub enum LoadError {
    /// Its config is refused.
    Config(ConfigError),
    /// Its keytab cannot be registered, for the reason given.
    Keytab(String),
}

/// What is left to do for a request.
#[derive(Debug)]
pub enum ResolveStep {
    /// Nothing: this is the answer.
    Finished(IdentityResolution),
    /// The token that the request carries is to be put through the accept.
    Accept(AcceptState),
}

/// A [`ResolveStep`] with its texts and bytes as sequences.
pub enum StepModel {
    Finished(ResolutionOutcome),
    Accept(AcceptModel),
}

impl View for ResolveStep {
    type V = StepModel;

    open spec fn view(&self) -> StepModel {
        match self {
            ResolveStep::Finished(result) => StepModel::Finished(result@),
            ResolveStep::Accept(state) => StepModel::Accept(state@),
        }
    }
}

/// The first `::` of `path` stands at `i`.
pub open spec fn is_first_separator(path: Seq<char>, i: int) -> bool {
    &&& 0 <= i < path.len() - 1
    &&& path[i] == ':'
    &&& path[i + 1] == ':'
    &&& forall|j: int| #![trigger path[j]] 0 <= j < i ==> path[j] != ':' || path[j + 1] != ':'
}

/// What stands before the first `::` of `path`: the whole path, where it has none.
pub open spec fn crate_of(path: Seq<char>) -> Seq<char> {
    if exists|i: int| is_first_separator(path, i) {
        path.take(choose|i: int| is_first_separator(path, i))
    } else {
        path
    }
}

/// The manifest of the plugin, built as `version` from the module `source_module`.
pub open spec fn manifest_of(version: Seq<char>, source_module: Seq<char>) -> ManifestModel {
    ManifestModel {
        id: PLUGIN_ID@,
        version,
        name: "Kerberos / SPNEGO Identity Resolver"@,
        plugin_class: PluginClass::IdentityProvider,
        protocol_version: "1.0"@,
        license: None,
        required_capabilities: Seq::empty(),
        tags: Seq::empty(),
        provides: Seq::empty(),
        provides_schemes: Seq::empty(),
        module_path_prefix: crate_of(source_module),
        backend_profile: None,
    }
}

/// The plugin that `config` describes.
pub open spec fn plugin_of(
    config: ConfigModel,
    version: Seq<char>,
    source_module: Seq<char>,
) -> PluginModel {
    PluginModel {
        manifest: manifest_of(version, source_module),
        service_name: config.service_name,
        strip_realm: config.strip_realm,
        resolution: config.resolution,
    }
}

/// Why a plugin whose config has the flaw `flaw` does not load.
pub open spec fn config_refusal(flaw: Seq<char>) -> Seq<char> {
    "kerberos identity config parse failed: "@ + flaw
        + ". A misconfigured identity resolver is a security hole; refusing to load."@
}

/// Why a plugin whose keytab registration fails for `flaw` does not load.
pub open spec fn keytab_refusal(flaw: Seq<char>) -> Seq<char> {
    "kerberos identity: registering keytab failed: "@ + flaw
}

/// The attributes of an identity: the full principal, and the realm if it has
/// one.
pub open spec fn attributes_of(principal: Seq<char>) -> Map<Seq<char>, Seq<char>> {
    let named = Map::<Seq<char>, Seq<char>>::empty().insert("principal"@, principal);
    match gss::principal_parts(principal).1 {
        Some(realm) => named.insert("realm"@, realm),
        None => named,
    }
}

/// The identity of a caller who authenticated as `principal`.
pub open spec fn identity_of(plugin: PluginModel, principal: Seq<char>) -> IdentityModel {
    let (user, realm) = gss::principal_parts(principal);
    IdentityModel {
        kind: plugin.resolution.trust_level,
        trust_level: plugin.resolution.trust_level,
        subject_id: Some(
            if plugin.strip_realm {
                user
            } else {
                principal
            },
        ),
        auth_provider: Some(plugin.resolution.auth_provider_label),
        issuer: match realm {
            Some(r) => Some("krb5:"@ + r),
            None => None,
        },
        roles: Seq::empty(),
        groups: Seq::empty(),
        scopes: Seq::empty(),
        attributes: attributes_of(principal),
    }
}

/// The answer to a request whose token ended the accept in `outcome`. The detail
/// of a failure does not show in it.
pub open spec fn answer(plugin: PluginModel, outcome: GssOutcome) -> ResolutionOutcome {
    match outcome {
        GssOutcome::Authenticated(principal) => ResolutionOutcome::Resolved(
            identity_of(plugin, principal),
        ),
        GssOutcome::BadToken(_) => ResolutionOutcome::Invalid(
            "invalid or expired Kerberos token"@,
        ),
        GssOutcome::Continuation => ResolutionOutcome::Invalid(
            "multi-leg negotiation is not supported"@,
        ),
        GssOutcome::ServerError(_) => ResolutionOutcome::Invalid("kerberos acceptor unavailable"@),
    }
}

/// What is left to do for a request whose token decodes to `token`.
pub open spec fn token_step(plugin: PluginModel, token: Option<Seq<u8>>) -> StepModel {
    match token {
        Some(bytes) => StepModel::Accept(gss::accept_start(plugin.service_name, bytes)),
        None => StepModel::Finished(
            ResolutionOutcome::Invalid("malformed Negotiate token (base64)"@),
        ),
    }
}

/// What is left to do for a request with `headers`.
pub open spec fn resolve_step(
    plugin: PluginModel,
    headers: Seq<(Seq<char>, Seq<char>)>,
) -> StepModel {
    match headers::negotiate_text(headers) {
        Some(text) => token_step(plugin, token::base64_decoded(text)),
        None => StepModel::Finished(ResolutionOutcome::Absent),
    }
}

/// The first segment of a module path.
pub fn module_path_prefix(path: &str) -> (r: String)
    ensures
        r@ == crate_of(path@),
{
    let chars = crate::text::chars_of(path);
    let mut i: usize = 0;
    while chars.len() - i > 1
        invariant
            chars@ == path@,
            i <= chars.len(),
            forall|j: int|
                #![trigger path@[j]]
                0 <= j < i ==> path@[j] != ':' || path@[j + 1] != ':',
        decreases chars.len() - i,
    {
        if chars[i] == ':' && chars[i + 1] == ':' {
            assert(is_first_separator(path@, i as int));
            return path.substring_char(0, i).to_owned();
        }
        i += 1;
    }
    path.to_owned()
}

impl LoadError {
    /// `m` is what the error says.
    pub open spec fn says(&self, m: Seq<char>) -> bool {
        match self {
            LoadError::Config(e) => exists|flaw: Seq<char>| #[trigger]
                e.says(flaw) && m == config_refusal(flaw),
            LoadError::Keytab(flaw) => m == keytab_refusal(flaw@),
        }
    }

    /// What the error says.
    pub fn message(&self) -> (r: String)
        ensures
            self.says(r@),
    {
        match self {
            LoadError::Config(e) => {
                let flaw = e.message();
                let mut m = "kerberos identity config parse failed: ".to_owned();
                m.append(flaw.as_str());
                m.append(
                    ". A misconfigured identity resolver is a security hole; refusing to load.",
                );
                m
            },
            LoadError::Keytab(flaw) => {
                let mut m = "kerberos identity: registering keytab failed: ".to_owned();
                m.append(flaw.as_str());
                m
            },
        }
    }
}

impl KerberosIdentityPlugin {
    #[verifier::type_invariant]
    spec fn inv(self) -> bool {
        crate::config::is_trust_level(self.inner.resolution.trust_level@)
    }

    /// Takes what a JSON decoder made of the plugin's config document and
    /// prepares the plugin, up to the registration of its keytab. A plugin with a
    /// bad config is refused, with the reason: a misconfigured identity resolver
    /// is a security hole.
    ///
    /// `keytab_exists` tells whether anything exists at the keytab path that the
    /// document names; `version` and `source_module` are those of the build.
    pub fn from_config_json(
        decoded: Result<ConfigFields, serde_json::Error>,
        keytab_exists: bool,
        version: &str,
        source_module: &str,
    ) -> (r: Result<PendingPlugin, LoadError>)
        ensures
            match decoded {
                Err(e) => r == Err::<PendingPlugin, _>(
                    LoadError::Config(ConfigError::InvalidJson(e)),
                ),
                Ok(fields) => match crate::config::config_fault(fields.meaning(), keytab_exists) {
                    Some(fault) => r matches Err(LoadError::Config(e)) && e.fault() == Some(fault),
                    None => {
                        let path = vstd::utf8::encode_utf8(fields.keytab@);
                        if path.contains(0u8) {
                            r matches Err(LoadError::Keytab(flaw)) && exists|i: int| #[trigger]
                                gss::is_first_nul(path, i) && flaw@ == gss::nul_message(i as nat)
                        } else {
                            r matches Ok(p) && {
                                &&& p.keytab() == fields.keytab@
                                &&& p.c_string() == path.push(0u8)
                                &&& p.plugin() == plugin_of(
                                    fields.meaning(),
                                    version@,
                                    source_module@,
                                )
                            }
                        }
                    },
                },
            },
    {
        let config = match KerberosConfig::parse(decoded, keytab_exists) {
            Ok(config) => config,
            Err(e) => return Err(LoadError::Config(e)),
        };
        let registration = match gss::register_keytab(config.keytab.as_str()) {
            Ok(registration) => registration,
            Err(flaw) => return Err(LoadError::Keytab(flaw)),
        };
        let manifest = PluginManifest {
            id: PLUGIN_ID.to_owned(),
            version: version.to_owned(),
            name: "Kerberos / SPNEGO Identity Resolver".to_owned(),
            plugin_class: PluginClass::IdentityProvider,
            protocol_version: "1.0".to_owned(),
            license: None,
            required_capabilities: Vec::new(),
            tags: Vec::new(),
            provides: Vec::new(),
            provides_schemes: Vec::new(),
            module_path_prefix: module_path_prefix(source_module),
            backend_profile: None,
        };
        assert(manifest@ == manifest_of(version@, source_module@)) by {
            let none = Seq::<Seq<char>>::empty();
            assert(manifest@.required_capabilities =~= none);
            assert(manifest@.tags =~= none);
            assert(manifest@.provides =~= none);
            assert(manifest@.provides_schemes =~= none);
        }
        let inner = Inner {
            manifest,
            service_name: config.service_name,
            strip_realm: config.strip_realm,
            resolution: config.resolution,
        };
        let plugin = KerberosIdentityPlugin { inner: Arc::new(inner) };
        Ok(PendingPlugin { registration, plugin })
    }

    /// How the plugin presents itself to its host.
    pub fn manifest(&self) -> (r: &PluginManifest)
        ensures
            r@ == self@.manifest,
    {
        &self.inner.manifest
    }

    /// The identity of a caller who authenticated as `principal`.
    pub fn build_identity(&self, principal: String) -> (r: PluginIdentity)
        ensures
            r@ == identity_of(self@, principal@),
            crate::config::is_trust_level(r.trust_level@),
    {
        proof {
            use_type_invariant(self);
        }
        let (user, realm) = gss::split_principal(principal.as_str());
        let subject = if self.inner.strip_realm {
            user
        } else {
            principal.clone()
        };
        let mut attributes = Attributes::new();
        attributes.insert("principal".to_owned(), principal);
        let issuer = match realm {
            Some(realm) => {
                let mut issuer = "krb5:".to_owned();
                issuer.append(realm.as_str());
                attributes.insert("realm".to_owned(), realm);
                Some(issuer)
            },
            None => None,
        };
        let identity = PluginIdentity {
            kind: self.inner.resolution.trust_level.clone(),
            trust_level: self.inner.resolution.trust_level.clone(),
            subject_id: Some(subject),
            auth_provider: Some(self.inner.resolution.auth_provider_label.clone()),
            issuer,
            roles: Vec::new(),
            groups: Vec::new(),
            scopes: Vec::new(),
            attributes,
        };
        proof {
            let none = Seq::<Seq<char>>::empty();
            assert(identity@.roles =~= none);
            assert(identity@.groups =~= none);
            assert(identity@.scopes =~= none);
        }
        identity
    }

    /// Begins to resolve the caller of a request: answers it, or hands out the
    /// accept attempt that its token is to be put through. The result of that
    /// attempt goes to [`KerberosIdentityPlugin::conclude`].
    pub fn resolve(&self, headers: &[(String, String)]) -> (r: ResolveStep)
        ensures
            r@ == resolve_step(self@, headers::header_pairs(headers@)),
    {
        match headers::find_negotiate(headers) {
            Some(text) => self.resolve_token(token::decode_token(text)),
            None => ResolveStep::Finished(IdentityResolution::Absent),
        }
    }

    /// Goes on with a request whose Negotiate token was decoded to `token`, or
    /// could not be decoded.
    pub fn resolve_token(&self, token: Option<Vec<u8>>) -> (r: ResolveStep)
        ensures
            r@ == token_step(self@, token.deep_view()),
    {
        match token {
            Some(bytes) => {
                assert(bytes.deep_view() == bytes@);
                let service_name = match &self.inner.service_name {
                    Some(s) => Some(s.as_str()),
                    None => None,
                };
                ResolveStep::Accept(gss::accept(service_name, bytes))
            },
            None => ResolveStep::Finished(
                IdentityResolution::Invalid {
                    reason: "malformed Negotiate token (base64)".to_owned(),
                },
            ),
        }
    }

    /// Answers a request whose token ended the accept in `result`.
    pub fn conclude(&self, result: GssResult) -> (r: IdentityResolution)
        ensures
            r@ == answer(self@, result@),
            r matches IdentityResolution::Resolved { identity } ==> crate::config::is_trust_level(
                identity.trust_level@,
            ),
    {
        match result {
            GssResult::Authenticated(principal) => IdentityResolution::Resolved {
                identity: self.build_identity(principal),
            },
            GssResult::BadToken(_) => IdentityResolution::Invalid {
                reason: "invalid or expired Kerberos token".to_owned(),
            },
            GssResult::Continuation => IdentityResolution::Invalid {
                reason: "multi-leg negotiation is not supported".to_owned(),
            },
            // Fail closed: an acceptor-side problem (keytab) rejects rather than
            // passing through.
            GssResult::ServerError(_) => IdentityResolution::Invalid {
                reason: "kerberos acceptor unavailable".to_owned(),
            },
        }
    }
}

impl PendingPlugin {
    /// The path of the keytab that is to be registered.
    pub closed spec fn keytab(&self) -> Seq<char> {
        self.registration.path()
    }

    /// What `krb5_gss_register_acceptor_identity` is called on.
    pub closed spec fn c_string(&self) -> Seq<u8> {
        self.registration.c_string()
    }

    /// The plugin that is ready once the keytab is registered.
    pub closed spec fn plugin(&self) -> PluginModel {
        self.plugin@
    }

    /// The bytes to call `krb5_gss_register_acceptor_identity` on.
    pub fn c_path(&self) -> (r: &Vec<u8>)
        ensures
            r@ == self.c_string(),
    {
        self.registration.c_path()
    }

    /// Completes the plugin, given the major status that
    /// `krb5_gss_register_acceptor_identity` returned.
    pub fn registered(self, major: u32) -> (r: Result<KerberosIdentityPlugin, LoadError>)
        ensures
            match r {
                Ok(plugin) => major == 0 && plugin@ == self.plugin(),
                Err(e) => major != 0 && (e matches LoadError::Keytab(flaw) && flaw@
                    == gss::registration_message(self.keytab(), major)),
            },
    {
        match self.registration.finish(major) {
            Ok(_) => Ok(self.plugin),
            Err(flaw) => Err(LoadError::Keytab(flaw)),
        }
    }
}

} // verus!
