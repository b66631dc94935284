//! What holds of identities, answers and what is recorded of them.
use vstd::prelude::*;

use crate::gss;
use crate::gss::GssOutcome;
use crate::identity;
use crate::identity::{IdentityModel, ResolutionOutcome, Severity};
use crate::plugin;
use crate::plugin::PluginModel;

verus! {

/// Kind and trust level of an identity are the configured trust level, and its
/// provider is the configured label, whoever the caller is and whatever else is
/// configured.
pub proof fn law_identity_follows_resolution(plugin: PluginModel, principal: Seq<char>)
    ensures
        plugin::identity_of(plugin, principal).kind == plugin.resolution.trust_level,
        plugin::identity_of(plugin, principal).trust_level == plugin.resolution.trust_level,
        plugin::identity_of(plugin, principal).auth_provider == Some(
            plugin.resolution.auth_provider_label,
        ),
{
}

/// The identity of `user@REALM` has the subject `user` where realms are stripped
/// and the full principal where not, the issuer `krb5:REALM`, and the principal
/// and the realm as its attributes.
pub proof fn law_identity_of_user_in_realm(
    plugin: PluginModel,
    user: Seq<char>,
    realm: Seq<char>,
)
    requires
        realm.len() > 0,
        !realm.contains('@'),
    ensures
        ({
            let principal = user + "@"@ + realm;
            let identity = plugin::identity_of(plugin, principal);
            &&& identity.subject_id == Some(
                if plugin.strip_realm {
                    user
                } else {
                    principal
                },
            )
            &&& identity.issuer == Some("krb5:"@ + realm)
            &&& identity.attributes =~= map!["principal"@ => principal, "realm"@ => realm]
        }),
{
    super::law_principal_splits(user, realm);
}

/// The identity of a principal without a realm has the principal as its subject,
/// no issuer, and the principal as its one attribute.
pub proof fn law_identity_without_realm(plugin: PluginModel, principal: Seq<char>)
    requires
        !principal.contains('@') || principal.last() == '@',
    ensures
        ({
            let identity = plugin::identity_of(plugin, principal);
            &&& identity.subject_id == Some(principal)
            &&& identity.issuer is None
            &&& identity.attributes =~= map!["principal"@ => principal]
        }),
{
    super::law_principal_rejoins(principal);
    reveal_strlit("@");
    if let (user, Some(realm)) = gss::principal_parts(principal) {
        assert(principal[user.len() as int] == '@');
        assert(principal.last() == realm.last());
        assert(realm.contains(realm.last()));
    }
}

/// Roles, groups and scopes are never claimed.
pub proof fn law_identity_claims_no_roles(plugin: PluginModel, principal: Seq<char>)
    ensures
        plugin::identity_of(plugin, principal).roles == Seq::<Seq<char>>::empty(),
        plugin::identity_of(plugin, principal).groups == Seq::<Seq<char>>::empty(),
        plugin::identity_of(plugin, principal).scopes == Seq::<Seq<char>>::empty(),
{
}

/// Each outcome of the accept has its answer: the identity of the principal, or
/// the refusal of its kind.
pub proof fn law_answers(plugin: PluginModel, t: Seq<char>)
    ensures
        plugin::answer(plugin, GssOutcome::Authenticated(t)) == ResolutionOutcome::Resolved(
            plugin::identity_of(plugin, t),
        ),
        plugin::answer(plugin, GssOutcome::BadToken(t)) == ResolutionOutcome::Invalid(
            "invalid or expired Kerberos token"@,
        ),
        plugin::answer(plugin, GssOutcome::Continuation) == ResolutionOutcome::Invalid(
            "multi-leg negotiation is not supported"@,
        ),
        plugin::answer(plugin, GssOutcome::ServerError(t)) == ResolutionOutcome::Invalid(
            "kerberos acceptor unavailable"@,
        ),
{
}

/// A resolution is counted under its own label. Refusals are logged as warnings
/// with their reason, the others for debugging: a resolved caller with the
/// subject, and a request that falls through with nothing.
pub proof fn law_records(who: IdentityModel, reason: Seq<char>)
    ensures
        ({
            let r = identity::outcome_record(ResolutionOutcome::Resolved(who));
            &&& r.outcome == "resolved"@
            &&& r.severity == Severity::Debug
            &&& r.message == "kerberos identity resolved"@
            &&& who.subject_id matches Some(s) ==> r.field == Some(("subject"@, s))
            &&& who.subject_id is None ==> r.field == Some(("subject"@, ""@))
        }),
        ({
            let r = identity::outcome_record(ResolutionOutcome::Absent);
            &&& r.outcome == "none"@
            &&& r.severity == Severity::Debug
            &&& r.message == "kerberos identity: no Negotiate token — fall through"@
            &&& r.field is None
        }),
        ({
            let r = identity::outcome_record(ResolutionOutcome::Invalid(reason));
            &&& r.outcome == "invalid"@
            &&& r.severity == Severity::Warn
            &&& r.message == "kerberos identity: rejected"@
            &&& r.field == Some(("reason"@, reason))
        }),
{
}

} // verus!
