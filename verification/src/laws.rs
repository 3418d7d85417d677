//! Properties of the library that span several operations.
use std::sync::Arc;
use vstd::prelude::*;

use crate::bootstrap::{config_dir_outcome, flag_with_value_at, join_path, resolved_config_path};
use crate::config::{repeats_earlier, validation_outcome, InstanceConfig, ProviderConfigRef};
use crate::oci::{action_args, status_args, OciConfig};
use crate::http::{
    api_error_of_registry, guard_outcome, instance_id_in_path, instances_prefix, leading_slashes,
    lemma_leading_slashes_unique, lemma_segment_end_unique, origins_of, segment_end,
    trim_leading_slashes, ApiErrorView, GuardActionView,
};
use crate::registry::{
    factory_outcome, lookup_outcome, register_outcome, FactoryMap, InstanceMap,
    RegisteredInstance, RegistryErrorView,
};

verus! {

/// An instance registered under a fresh id is found under that id, with
/// the provider and origins it was registered with; every other id is
/// answered as before.
pub proof fn lemma_registered_instance_is_found<P>(
    m: InstanceMap<P>,
    id: Seq<char>,
    inst: RegisteredInstance<P>,
    other: Seq<char>,
)
    requires
        !m.contains_key(id),
    ensures
        register_outcome(m, id, inst).1 == Ok::<(), RegistryErrorView>(()),
        lookup_outcome(register_outcome(m, id, inst).0, id) == Ok::<_, RegistryErrorView>(inst),
        other != id ==> lookup_outcome(register_outcome(m, id, inst).0, other) == lookup_outcome(
            m,
            other,
        ),
{
}

/// Registering an id that is already registered is refused with
/// `DuplicateInstance`, and changes nothing.
pub proof fn lemma_duplicate_registration_is_refused<P>(
    m: InstanceMap<P>,
    id: Seq<char>,
    inst: RegisteredInstance<P>,
)
    requires
        m.contains_key(id),
    ensures
        register_outcome(m, id, inst) == (m, Err::<(), _>(RegistryErrorView::DuplicateInstance(id))),
{
}

/// Each successful registration adds exactly one instance to the count.
pub proof fn lemma_registration_counts<P>(
    m: InstanceMap<P>,
    id: Seq<char>,
    inst: RegisteredInstance<P>,
)
    requires
        m.dom().finite(),
    ensures
        register_outcome(m, id, inst).0.len() == if m.contains_key(id) {
            m.len()
        } else {
            m.len() + 1
        },
{
}

/// The registry after registering each `(id, instance)` of `steps`, in
/// order, starting from `m`.
pub open spec fn register_all<P>(
    m: InstanceMap<P>,
    steps: Seq<(Seq<char>, RegisteredInstance<P>)>,
) -> InstanceMap<P>
    decreases steps.len(),
{
    if steps.len() == 0 {
        m
    } else {
        register_outcome(register_all(m, steps.drop_last()), steps.last().0, steps.last().1).0
    }
}

/// How many of the registrations of `steps`, made in order from `m`, were
/// accepted.
pub open spec fn accepted_count<P>(
    m: InstanceMap<P>,
    steps: Seq<(Seq<char>, RegisteredInstance<P>)>,
) -> nat
    decreases steps.len(),
{
    if steps.len() == 0 {
        0
    } else {
        accepted_count(m, steps.drop_last()) + if register_outcome(
            register_all(m, steps.drop_last()),
            steps.last().0,
            steps.last().1,
        ).1 is Ok {
            1nat
        } else {
            0nat
        }
    }
}

/// The ids of a sequence of registrations.
pub open spec fn step_ids<P>(steps: Seq<(Seq<char>, RegisteredInstance<P>)>) -> Seq<Seq<char>> {
    steps.map_values(|s: (Seq<char>, RegisteredInstance<P>)| s.0)
}

/// Starting from an empty registry, after any sequence of registrations the
/// registry holds exactly the ids that were registered, and its size is both
/// the number of registrations accepted and the number of distinct ids.
pub proof fn lemma_registry_size_counts_accepted_registrations<P>(
    steps: Seq<(Seq<char>, RegisteredInstance<P>)>,
)
    ensures
        register_all(Map::empty(), steps).dom() == step_ids(steps).to_set(),
        register_all(Map::empty(), steps).len() == accepted_count(Map::empty(), steps),
        accepted_count(Map::empty(), steps) == step_ids(steps).to_set().len(),
    decreases steps.len(),
{
    broadcast use vstd::set::group_set_axioms, vstd::seq_lib::seq_to_set_is_finite;

    if steps.len() == 0 {
        assert(step_ids(steps).to_set() =~= Set::<Seq<char>>::empty());
        assert(register_all(Map::<Seq<char>, Arc<RegisteredInstance<P>>>::empty(), steps).dom()
            =~= Set::<Seq<char>>::empty());
    } else {
        let rest = steps.drop_last();
        lemma_registry_size_counts_accepted_registrations(rest);
        let prev = register_all(Map::<Seq<char>, Arc<RegisteredInstance<P>>>::empty(), rest);
        let id = steps.last().0;
        assert(step_ids(steps) =~= step_ids(rest).push(id));
        step_ids(rest).lemma_push_to_set_commute(id);
        assert(prev.dom().finite());
        if prev.contains_key(id) {
            assert(step_ids(rest).to_set().insert(id) =~= step_ids(rest).to_set());
        } else {
            assert(prev.insert(id, Arc::new(steps.last().1)).dom() =~= prev.dom().insert(id));
        }
    }
}

/// An id that was never registered is answered with `InstanceNotFound`.
pub proof fn lemma_unknown_instance_is_not_found<P>(m: InstanceMap<P>, id: Seq<char>)
    requires
        !m.contains_key(id),
    ensures
        lookup_outcome(m, id) == Err::<RegisteredInstance<P>, _>(
            RegistryErrorView::InstanceNotFound(id),
        ),
        api_error_of_registry(RegistryErrorView::InstanceNotFound(id)).status_and_message().0
            == 404,
{
}

/// The factory registered last for a provider type is the one found for
/// it; other provider types are answered as before.
pub proof fn lemma_last_factory_registration_wins<F>(
    m: FactoryMap<F>,
    provider_type: Seq<char>,
    factory: Arc<F>,
    other: Seq<char>,
)
    ensures
        factory_outcome(m.insert(provider_type, factory), provider_type) == Ok::<
            F,
            RegistryErrorView,
        >(*factory),
        other != provider_type ==> factory_outcome(m.insert(provider_type, factory), other)
            == factory_outcome(m, other),
{
}

/// A configuration is accepted exactly when its port is not 0, it has at
/// least one instance, and no two instances share an id.
pub proof fn lemma_validation_accepts_exactly(port: u16, ids: Seq<Seq<char>>)
    ensures
        validation_outcome(port, ids) is Ok <==> port != 0 && ids.len() > 0 && ids.no_duplicates(),
{
    if ids.no_duplicates() {
        assert forall|j: int| !repeats_earlier(ids, j) by {
            if repeats_earlier(ids, j) {
                let i = choose|i: int| 0 <= i < j && ids.take(j)[i] == ids[j];
                assert(ids[i] == ids[j]);
            }
        }
    } else {
        let (a, b) = choose|a: int, b: int|
            0 <= a < ids.len() && 0 <= b < ids.len() && a != b && ids[a] == ids[b];
        let (i, j) = if a < b {
            (a, b)
        } else {
            (b, a)
        };
        assert(ids.take(j)[i] == ids[j]);
        assert(repeats_earlier(ids, j));
    }
}

/// A configuration that passed validation has no instance whose id repeats
/// an earlier one, so building its registry never fails with a duplicate
/// registration.
pub proof fn lemma_validated_ids_register_cleanly(port: u16, ids: Seq<Seq<char>>, i: int)
    requires
        validation_outcome(port, ids) is Ok,
    ensures
        !repeats_earlier(ids, i),
{
}

/// The `--config-dir` flag, when given with a value, decides the
/// configuration directory whatever the environment says; without it the
/// environment variable decides, and `./config` is the fallback.
pub proof fn lemma_config_dir_precedence(
    args: Seq<Seq<char>>,
    env_a: Option<Seq<char>>,
    env_b: Option<Seq<char>>,
)
    ensures
        (exists|i: int| flag_with_value_at(args, i)) ==> config_dir_outcome(args, env_a)
            == config_dir_outcome(args, env_b),
        !(exists|i: int| flag_with_value_at(args, i)) ==> config_dir_outcome(args, env_a) == (
        match env_a {
            Some(d) => d,
            None => "./config"@,
        }),
{
}

/// The API path of an endpoint of instance `id`.
pub open spec fn instance_path(id: Seq<char>, endpoint: Seq<char>) -> Seq<char> {
    "/"@ + instances_prefix() + id + "/"@ + endpoint
}

/// The id in `/v1/instances/<id>/<endpoint>` is the one extracted from that
/// path, for every id without a '/'.
pub proof fn lemma_instance_path_names_its_id(id: Seq<char>, endpoint: Seq<char>)
    requires
        !id.contains('/'),
    ensures
        instance_id_in_path(instance_path(id, endpoint)) == Some(id),
{
    reveal_strlit("/");
    reveal_strlit("v1/instances/");
    let path = instance_path(id, endpoint);
    assert(leading_slashes(path, 1));
    lemma_leading_slashes_unique(path, 1);
    let t = path.skip(1);
    assert(trim_leading_slashes(path) == t);
    assert(t =~= instances_prefix() + id + "/"@ + endpoint);
    assert(t.subrange(0, instances_prefix().len() as int) =~= instances_prefix());
    let rest = t.skip(instances_prefix().len() as int);
    assert(rest =~= id + "/"@ + endpoint);
    assert forall|i: int| 0 <= i < id.len() implies rest[i] != '/' by {
        assert(rest[i] == id[i]);
        if id[i] == '/' {
            assert(id.contains('/'));
        }
    }
    assert(rest[id.len() as int] == '/');
    assert(segment_end(rest, id.len() as int));
    lemma_segment_end_unique(rest, id.len() as int);
    assert(rest.take(id.len() as int) =~= id);
}

/// The origin guard never blocks a request that carries no `Origin` header.
pub proof fn lemma_guard_passes_requests_without_origin<P>(
    m: InstanceMap<P>,
    path: Seq<char>,
    preflight: bool,
)
    ensures
        guard_outcome(m, path, None, preflight) == GuardActionView::Forward,
{
}

/// The guard refuses a request exactly when it names a registered instance
/// and carries an `Origin` that the instance does not allow; an allowed
/// origin is the one echoed back.
pub proof fn lemma_guard_refuses_exactly_disallowed_origins<P>(
    m: InstanceMap<P>,
    path: Seq<char>,
    origin: Seq<char>,
    preflight: bool,
)
    ensures
        guard_outcome(m, path, Some(origin), preflight) == GuardActionView::Reject <==> (
        instance_id_in_path(path) matches Some(id) && m.contains_key(id) && !origins_of(
            m[id].allowed_origins@,
        ).contains(origin)),
        guard_outcome(m, path, Some(origin), preflight) matches GuardActionView::Preflight(o) ==> o
            == origin && preflight,
        guard_outcome(m, path, Some(origin), preflight) matches GuardActionView::ForwardWithOrigin(
            o,
        ) ==> o == origin && !preflight,
{
}

/// Once an instance is registered with its allowed origins, a browser call
/// to any of its endpoints from an origin outside that list is refused,
/// and one from an origin on the list passes with that origin allowed.
pub proof fn lemma_registered_origins_are_enforced<P>(
    m: InstanceMap<P>,
    id: Seq<char>,
    inst: RegisteredInstance<P>,
    endpoint: Seq<char>,
    origin: Seq<char>,
)
    requires
        !m.contains_key(id),
        !id.contains('/'),
    ensures
        guard_outcome(
            register_outcome(m, id, inst).0,
            instance_path(id, endpoint),
            Some(origin),
            false,
        ) == if origins_of(inst.allowed_origins@).contains(origin) {
            GuardActionView::ForwardWithOrigin(origin)
        } else {
            GuardActionView::Reject
        },
{
    lemma_instance_path_names_its_id(id, endpoint);
}

/// Registry failures map to HTTP answers: an unknown instance is 404, every
/// other registry failure is 500 with the registry's message.
pub proof fn lemma_registry_failures_map_to_statuses(e: RegistryErrorView)
    ensures
        api_error_of_registry(e).status_and_message().0 == (if e is InstanceNotFound {
            404u16
        } else {
            500u16
        }),
        !(e is InstanceNotFound) ==> api_error_of_registry(e).status_and_message().1 == e.message(),
        ApiErrorView::Provider(e.message()).status_and_message() == (502u16, e.message()),
{
}

/// Every request from an allowed origin to a registered instance is served
/// for that origin: a preflight is answered as a preflight echoing the
/// origin, any other request is passed on with the origin allowed. This
/// holds for every origin on the instance's list, wherever it stands.
pub proof fn lemma_allowed_origin_is_served<P>(
    m: InstanceMap<P>,
    path: Seq<char>,
    id: Seq<char>,
    origin: Seq<char>,
)
    requires
        instance_id_in_path(path) == Some(id),
        m.contains_key(id),
        origins_of(m[id].allowed_origins@).contains(origin),
    ensures
        guard_outcome(m, path, Some(origin), true) == GuardActionView::Preflight(origin),
        guard_outcome(m, path, Some(origin), false) == GuardActionView::ForwardWithOrigin(origin),
{
}

/// A relative name joined onto a directory lands inside it: with exactly
/// one '/' between a non-empty directory that does not end in '/' and the
/// name, directly after a directory that does, and alone after an empty
/// directory. An absolute name stands for itself.
pub proof fn lemma_join_lands_inside_the_directory(dir: Seq<char>, rel: Seq<char>)
    ensures
        !(rel.len() > 0 && rel[0] == '/') && dir.len() > 0 && dir.last() != '/' ==> join_path(
            dir,
            rel,
        ) == dir + seq!['/'] + rel,
        !(rel.len() > 0 && rel[0] == '/') && dir.len() > 0 && dir.last() == '/' ==> join_path(
            dir,
            rel,
        ) == dir + rel,
        !(rel.len() > 0 && rel[0] == '/') && dir.len() == 0 ==> join_path(dir, rel) == rel,
        rel.len() > 0 && rel[0] == '/' ==> join_path(dir, rel) == rel,
{
    reveal_strlit("/");
    assert(dir + "/"@ + rel =~= dir + seq!['/'] + rel);
}

/// The configuration file is `config.yaml` directly inside the
/// configuration directory: one '/' is put between them when the directory
/// does not already end in one.
pub proof fn lemma_config_file_is_inside_the_directory(dir: Seq<char>)
    ensures
        dir.len() > 0 && dir.last() != '/' ==> join_path(dir, "config.yaml"@) == dir + seq!['/']
            + "config.yaml"@,
        dir.len() > 0 && dir.last() == '/' ==> join_path(dir, "config.yaml"@) == dir
            + "config.yaml"@,
{
    reveal_strlit("config.yaml");
    lemma_join_lands_inside_the_directory(dir, "config.yaml"@);
}

/// Every relative provider-configuration path is resolved inside the
/// configuration directory, whatever it begins with (`./` included); an
/// absolute one stands for itself.
pub proof fn lemma_provider_path_is_inside_the_config_dir(
    config_dir: Seq<char>,
    c: InstanceConfig,
    path: String,
)
    requires
        c.provider_config == Some(ProviderConfigRef::File { path }),
    ensures
        !(path@.len() > 0 && path@[0] == '/') && config_dir.len() > 0 && config_dir.last() != '/'
            ==> resolved_config_path(config_dir, c) == Some(config_dir + seq!['/'] + path@),
        !(path@.len() > 0 && path@[0] == '/') && config_dir.len() > 0 && config_dir.last() == '/'
            ==> resolved_config_path(config_dir, c) == Some(config_dir + path@),
        path@.len() > 0 && path@[0] == '/' ==> resolved_config_path(config_dir, c) == Some(path@),
{
    lemma_join_lands_inside_the_directory(config_dir, path@);
}

/// An instance without a provider configuration gets no path.
pub proof fn lemma_no_provider_config_no_path(config_dir: Seq<char>, c: InstanceConfig)
    requires
        c.provider_config is None,
    ensures
        resolved_config_path(config_dir, c) is None,
{
}

/// The OCI action command names the instance whatever the profile:
/// `compute instance action --instance-id <id>`, then `--profile <p>` only
/// when a profile is configured, then `--action <action>`.
pub proof fn lemma_action_command_names_the_instance(c: OciConfig, action: Seq<char>)
    ensures
        c.profile is None ==> action_args(c, action) == seq![
            "compute"@,
            "instance"@,
            "action"@,
            "--instance-id"@,
            c.instance_id@,
            "--action"@,
            action,
        ],
        c.profile matches Some(p) ==> action_args(c, action) == seq![
            "compute"@,
            "instance"@,
            "action"@,
            "--instance-id"@,
            c.instance_id@,
            "--profile"@,
            p@,
            "--action"@,
            action,
        ],
{
    assert(c.profile is None ==> action_args(c, action) =~= seq![
        "compute"@,
        "instance"@,
        "action"@,
        "--instance-id"@,
        c.instance_id@,
        "--action"@,
        action,
    ]);
    match c.profile {
        Some(p) => {
            assert(action_args(c, action) =~= seq![
                "compute"@,
                "instance"@,
                "action"@,
                "--instance-id"@,
                c.instance_id@,
                "--profile"@,
                p@,
                "--action"@,
                action,
            ]);
        },
        None => {},
    }
}

/// The OCI status query selects the instance exactly as the action commands
/// do: `compute instance get --instance-id <id>`, then `--profile <p>` when
/// a profile is configured; after their three command words, the status
/// arguments are the action arguments without their `--action <action>`.
pub proof fn lemma_status_query_uses_the_same_target(c: OciConfig, action: Seq<char>)
    ensures
        c.profile is None ==> status_args(c) == seq![
            "compute"@,
            "instance"@,
            "get"@,
            "--instance-id"@,
            c.instance_id@,
        ],
        c.profile matches Some(p) ==> status_args(c) == seq![
            "compute"@,
            "instance"@,
            "get"@,
            "--instance-id"@,
            c.instance_id@,
            "--profile"@,
            p@,
        ],
        status_args(c).skip(3) == action_args(c, action).subrange(
            3,
            action_args(c, action).len() - 2,
        ),
{
    lemma_action_command_names_the_instance(c, action);
    assert(c.profile is None ==> status_args(c) =~= seq![
        "compute"@,
        "instance"@,
        "get"@,
        "--instance-id"@,
        c.instance_id@,
    ]);
    match c.profile {
        Some(p) => {
            assert(status_args(c) =~= seq![
                "compute"@,
                "instance"@,
                "get"@,
                "--instance-id"@,
                c.instance_id@,
                "--profile"@,
                p@,
            ]);
            assert(status_args(c).skip(3) =~= action_args(c, action).subrange(
                3,
                action_args(c, action).len() - 2,
            ));
        },
        None => {
            assert(status_args(c).skip(3) =~= action_args(c, action).subrange(
                3,
                action_args(c, action).len() - 2,
            ));
        },
    }
}

} // verus!
