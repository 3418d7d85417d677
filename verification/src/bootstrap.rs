use std::sync::Arc;
use vstd::prelude::*;

use crate::config::{instance_ids, repeats_earlier, Config, InstanceConfig, ProviderConfigRef};
use crate::http::origins_of;
use crate::mock::MockProviderFactory;
use crate::oci::OciProviderFactory;
use crate::provider::ProviderError;
use crate::registry::{
    InstanceRegistry, ProviderFactory, ProviderFactoryRegistry, RegistryError, RegistryErrorView,
};

verus! {

// ---------------------------------------------------------------------------
// The configuration directory
// ---------------------------------------------------------------------------

/// The command-line flag that names the configuration directory.
pub open spec fn config_dir_flag() -> Seq<char> {
    "--config-dir"@
}

/// `args[i]` is the flag and a value follows it.
pub open spec fn flag_with_value_at(args: Seq<Seq<char>>, i: int) -> bool {
    0 <= i && i + 1 < args.len() && args[i] == config_dir_flag()
}

/// `i` is the first position of the flag with a value after it.
pub open spec fn is_first_flag(args: Seq<Seq<char>>, i: int) -> bool {
    flag_with_value_at(args, i) && forall|j: int| 0 <= j < i ==> !flag_with_value_at(args, j)
}

/// The configuration directory: the value of the first `--config-dir` flag
/// that has one, else the `ACTIVATOR_CONFIG_DIR` environment variable, else
/// `./config`.
pub open spec fn config_dir_outcome(args: Seq<Seq<char>>, env_dir: Option<Seq<char>>) -> Seq<
    char,
> {
    if exists|i: int| flag_with_value_at(args, i) {
        args[(choose|i: int| is_first_flag(args, i)) + 1]
    } else {
        match env_dir {
            Some(d) => d,
            None => "./config"@,
        }
    }
}

/// A list of strings, taken as character sequences.
pub open spec fn strings_view(v: Seq<String>) -> Seq<Seq<char>> {
    v.map_values(|s: String| s@)
}

/// An optional string, taken as characters.
pub open spec fn opt_view(s: Option<String>) -> Option<Seq<char>> {
    match s {
        Some(s) => Some(s@),
        None => None,
    }
}

proof fn lemma_first_flag_unique(args: Seq<Seq<char>>, i: int)
    requires
        is_first_flag(args, i),
    ensures
        (choose|j: int| is_first_flag(args, j)) == i,
{
    let j = choose|j: int| is_first_flag(args, j);
    assert(is_first_flag(args, j));
    if j < i {
        assert(!flag_with_value_at(args, j));
    } else if i < j {
        assert(!flag_with_value_at(args, i));
    }
}

/// Joins a relative path onto a directory as `Path::join` does on Unix: an
/// absolute `rel` replaces `dir`; otherwise a '/' separates them unless
/// `dir` is empty or already ends in one.
pub open spec fn join_path(dir: Seq<char>, rel: Seq<char>) -> Seq<char> {
    if rel.len() > 0 && rel[0] == '/' {
        rel
    } else if dir.len() == 0 || dir.last() == '/' {
        dir + rel
    } else {
        dir + "/"@ + rel
    }
}

/// The provider-configuration path of an instance, resolved against the
/// configuration directory.
pub open spec fn resolved_config_path(config_dir: Seq<char>, c: InstanceConfig) -> Option<
    Seq<char>,
> {
    match c.provider_config {
        Some(ProviderConfigRef::File { path }) => Some(join_path(config_dir, path@)),
        None => None,
    }
}

// ---------------------------------------------------------------------------
// Built-in provider factories
// ---------------------------------------------------------------------------

/// The provider factories that ship with the activator.
pub enum BuiltinFactory {
    Mock(MockProviderFactory),
    Oci(OciProviderFactory),
}

impl ProviderFactory for BuiltinFactory {
    open spec fn spec_provider_type(&self) -> Seq<char> {
        match self {
            BuiltinFactory::Mock(f) => f.spec_provider_type(),
            BuiltinFactory::Oci(f) => f.spec_provider_type(),
        }
    }

    fn provider_type(&self) -> (r: &'static str) {
        match self {
            BuiltinFactory::Mock(f) => f.provider_type(),
            BuiltinFactory::Oci(f) => f.provider_type(),
        }
    }
}

// ---------------------------------------------------------------------------
// Building the instance registry
// ---------------------------------------------------------------------------

/// Why the activator could not start.
pub enum BootstrapError {
    /// An instance names a provider type that no factory serves.
    UnknownProvider { instance: String, lookup: RegistryError },
    /// A factory failed to build the provider of an instance.
    ProviderCreation { instance: String, failure: ProviderError },
    /// An instance could not be registered.
    Registration(RegistryError),
}

/// `create` may answer `res` when asked to build, with factory `f`, the
/// provider of instance `c`, given the provider-configuration path of `c`.
pub open spec fn may_create<F, P, C: Fn(&F, Option<String>) -> Result<P, ProviderError>>(
    create: &C,
    f: F,
    config_dir: Seq<char>,
    c: InstanceConfig,
    res: Result<P, ProviderError>,
) -> bool {
    exists|p: Option<String>|
        opt_view(p) == resolved_config_path(config_dir, c) && #[trigger] call_ensures(
            *create,
            (&f, p),
            res,
        )
}

/// `create` never reports a failure.
pub open spec fn never_fails<F, P, C: Fn(&F, Option<String>) -> Result<P, ProviderError>>(
    create: &C,
) -> bool {
    forall|f: &F, p: Option<String>, res: Result<P, ProviderError>|
        #[trigger] call_ensures(*create, (f, p), res) ==> res is Ok
}

/// Instance `c` names a provider type that a factory of `m` serves.
pub open spec fn served<F>(m: Map<Seq<char>, Arc<F>>, c: InstanceConfig) -> bool {
    m.contains_key(c.provider@)
}

/// The first `k` instances were each served, built and registered.
pub open spec fn built_through<F, P, C: Fn(&F, Option<String>) -> Result<P, ProviderError>>(
    insts: Seq<InstanceConfig>,
    factories: Map<Seq<char>, Arc<F>>,
    config_dir: Seq<char>,
    create: &C,
    k: int,
) -> bool {
    forall|j: int|
        0 <= j < k ==> {
            &&& served(factories, #[trigger] insts[j])
            &&& exists|p: P|
                may_create(create, *factories[insts[j].provider@], config_dir, insts[j], Ok(p))
            &&& !repeats_earlier(instance_ids(insts), j)
        }
}

/// Copies a list of strings.
fn copy_strings(v: &Vec<String>) -> (r: Vec<String>)
    ensures
        r@ == v@,
{
    let mut r: Vec<String> = Vec::new();
    let mut i: usize = 0;
    while i < v.len()
        invariant
            i <= v@.len(),
            r@ == v@.take(i as int),
        decreases v@.len() - i,
    {
        r.push(v[i].clone());
        proof {
            assert(v@.take(i + 1) =~= v@.take(i as int).push(v@[i as int]));
        }
        i = i + 1;
    }
    proof {
        assert(v@.take(v@.len() as int) =~= v@);
    }
    r
}

/// Starts the activator: works out where its configuration lives and
/// builds its registries.
pub struct Bootstrapper;

impl Bootstrapper {
    /// The configuration directory, from the command-line arguments (the
    /// program name left out) and the value of `ACTIVATOR_CONFIG_DIR`, if it
    /// is set.
    pub fn resolve_config_dir(args: &Vec<String>, env_dir: Option<String>) -> (r: String)
        ensures
            r@ == config_dir_outcome(strings_view(args@), opt_view(env_dir)),
    {
        let ghost a = strings_view(args@);
        let flag = String::from_str("--config-dir");
        let mut i: usize = 0;
        while i < args.len()
            invariant
                a == strings_view(args@),
                flag@ == config_dir_flag(),
                i <= args@.len(),
                forall|j: int| 0 <= j < i ==> !flag_with_value_at(a, j),
            decreases args@.len() - i,
        {
            if args[i] == flag && i + 1 < args.len() {
                proof {
                    assert(flag_with_value_at(a, i as int));
                    assert(is_first_flag(a, i as int));
                    lemma_first_flag_unique(a, i as int);
                }
                return args[i + 1].clone();
            }
            proof {
                assert(a[i as int] == args@[i as int]@);
            }
            i = i + 1;
        }
        proof {
            assert forall|j: int| !flag_with_value_at(a, j) by {
                if 0 <= j < args@.len() {
                } else {
                }
            }
        }
        match env_dir {
            Some(d) => d,
            None => String::from_str("./config"),
        }
    }

    /// Joins a relative path onto the configuration directory.
    pub fn join_config_path(dir: &str, rel: &str) -> (r: String)
        ensures
            r@ == join_path(dir@, rel@),
    {
        if rel.unicode_len() > 0 && rel.get_char(0) == '/' {
            return String::from_str(rel);
        }
        let n: usize = dir.unicode_len();
        let mut r = String::from_str(dir);
        if n > 0 && dir.get_char(n - 1) != '/' {
            r.append("/");
        }
        r.append(rel);
        r
    }

    /// The provider factories that ship with the activator, by type.
    pub fn build_factory_registry() -> (r: ProviderFactoryRegistry<BuiltinFactory>)
        ensures
            r@ == Map::<Seq<char>, Arc<BuiltinFactory>>::empty().insert(
                "mock"@,
                Arc::new(BuiltinFactory::Mock(MockProviderFactory)),
            ).insert("oracle-oci"@, Arc::new(BuiltinFactory::Oci(OciProviderFactory))),
    {
        let mut factories = ProviderFactoryRegistry::new();
        factories.register(Arc::new(BuiltinFactory::Mock(MockProviderFactory)));
        factories.register(Arc::new(BuiltinFactory::Oci(OciProviderFactory)));
        factories
    }

    /// The provider-configuration path of an instance, resolved against the
    /// configuration directory.
    pub fn resolve_provider_path(config_dir: &str, instance: &InstanceConfig) -> (r: Option<String>)
        ensures
            opt_view(r) == resolved_config_path(config_dir@, *instance),
    {
        match &instance.provider_config {
            Some(ProviderConfigRef::File { path }) => Some(
                Self::join_config_path(config_dir, path.as_str()),
            ),
            None => None,
        }
    }

    /// Builds the registry of the configured instances: for each instance
    /// in order, finds the factory of its provider type, has `create` build
    /// its provider from the resolved configuration path, and registers it
    /// with its allowed origins. Stops at the first failure.
    pub fn build_instance_registry<F: ProviderFactory, P, C: Fn(&F, Option<String>) -> Result<
        P,
        ProviderError,
    >>(
        config: &Config,
        config_dir: &str,
        factories: &ProviderFactoryRegistry<F>,
        create: &C,
    ) -> (r: Result<InstanceRegistry<P>, BootstrapError>)
        requires
            forall|f: &F, p: Option<String>| #[trigger] call_requires(*create, (f, p)),
        ensures
            ({
                let insts = config.instances@;
                let ids = instance_ids(insts);
                match r {
                    Ok(reg) => {
                        &&& built_through(insts, factories@, config_dir@, create, insts.len() as int)
                        &&& forall|id: Seq<char>| #[trigger]
                            reg@.contains_key(id) <==> ids.contains(id)
                        &&& forall|j: int|
                            0 <= j < insts.len() ==> {
                                let inst = *reg@[#[trigger] ids[j]];
                                &&& strings_view(inst.allowed_origins@) == strings_view(
                                    insts[j].allowed_origins@,
                                )
                                &&& may_create(
                                    create,
                                    *factories@[insts[j].provider@],
                                    config_dir@,
                                    insts[j],
                                    Ok(inst.provider),
                                )
                            }
                    },
                    Err(BootstrapError::UnknownProvider { instance, lookup }) => exists|i: int|
                        0 <= i < insts.len() && built_through(
                            insts,
                            factories@,
                            config_dir@,
                            create,
                            i,
                        ) && !served(factories@, #[trigger] insts[i]) && instance@ == ids[i]
                            && lookup@ == RegistryErrorView::UnknownProviderType(insts[i].provider@),
                    Err(BootstrapError::ProviderCreation { instance, failure }) => exists|i: int|
                        0 <= i < insts.len() && built_through(
                            insts,
                            factories@,
                            config_dir@,
                            create,
                            i,
                        ) && served(factories@, #[trigger] insts[i]) && instance@ == ids[i]
                            && may_create(
                            create,
                            *factories@[insts[i].provider@],
                            config_dir@,
                            insts[i],
                            Err(failure),
                        ),
                    Err(BootstrapError::Registration(error)) => exists|i: int|
                        0 <= i < insts.len() && built_through(
                            insts,
                            factories@,
                            config_dir@,
                            create,
                            i,
                        ) && served(factories@, #[trigger] insts[i]) && (exists|p: P|
                            may_create(
                                create,
                                *factories@[insts[i].provider@],
                                config_dir@,
                                insts[i],
                                Ok(p),
                            )) && repeats_earlier(ids, i) && error@
                            == RegistryErrorView::DuplicateInstance(ids[i]),
                }
            }),
            ({
                let insts = config.instances@;
                (forall|j: int| 0 <= j < insts.len() ==> served(factories@, #[trigger] insts[j]))
                    && instance_ids(insts).no_duplicates() && never_fails(create) ==> r is Ok
            }),
    {
        let ghost insts = config.instances@;
        let ghost ids = instance_ids(insts);
        let ghost fm = factories@;
        let ghost dir = config_dir@;
        let mut registry: InstanceRegistry<P> = InstanceRegistry::new();
        let mut k: usize = 0;
        while k < config.instances.len()
            invariant
                insts == config.instances@,
                ids == instance_ids(insts),
                fm == factories@,
                dir == config_dir@,
                forall|f: &F, p: Option<String>| #[trigger] call_requires(*create, (f, p)),
                k <= insts.len(),
                built_through(insts, fm, dir, create, k as int),
                forall|id: Seq<char>| #[trigger]
                    registry@.contains_key(id) <==> ids.take(k as int).contains(id),
                forall|j: int|
                    0 <= j < k ==> {
                        let inst = *registry@[#[trigger] ids[j]];
                        &&& strings_view(inst.allowed_origins@) == strings_view(
                            insts[j].allowed_origins@,
                        )
                        &&& may_create(create, *fm[insts[j].provider@], dir, insts[j], Ok(inst.provider))
                    },
            decreases insts.len() - k,
        {
            let instance = &config.instances[k];
            let factory = match factories.get(instance.provider.as_str()) {
                Ok(f) => f,
                Err(error) => {
                    return Err(BootstrapError::UnknownProvider { instance: instance.id.clone(), lookup: error });
                },
            };
            let path = Self::resolve_provider_path(config_dir, instance);
            let ghost path_given = path;
            let made = create(&*factory, path);
            proof {
                assert(call_ensures(*create, (&*factory, path_given), made));
            }
            let provider = match made {
                Ok(p) => p,
                Err(error) => {
                    proof {
                        assert(may_create(create, *fm[insts[k as int].provider@], dir, insts[k as int], Err(error)));
                    }
                    return Err(BootstrapError::ProviderCreation { instance: instance.id.clone(), failure: error });
                },
            };
            let ghost created = provider;
            proof {
                assert(may_create(create, *fm[insts[k as int].provider@], dir, insts[k as int], Ok(created)));
            }
            let origins = copy_strings(&instance.allowed_origins);
            let ghost before = registry@;
            match registry.register(instance.id.clone(), provider, origins) {
                Ok(()) => {},
                Err(error) => {
                    proof {
                        assert(ids.take(k as int).contains(ids[k as int]));
                        assert(repeats_earlier(ids, k as int));
                    }
                    return Err(BootstrapError::Registration(error));
                },
            }
            proof {
                assert(ids[k as int] == insts[k as int].id@);
                assert(!ids.take(k as int).contains(ids[k as int]));
                assert(ids.take(k + 1) =~= ids.take(k as int).push(ids[k as int]));
                assert forall|id: Seq<char>| #[trigger]
                    registry@.contains_key(id) <==> ids.take(k + 1).contains(id) by {
                    let next = ids.take(k + 1);
                    if next.contains(id) {
                        let j = choose|j: int| 0 <= j < next.len() && next[j] == id;
                        if j < k {
                            assert(ids.take(k as int)[j] == id);
                        }
                    }
                    if ids.take(k as int).contains(id) {
                        let j = choose|j: int| 0 <= j < k && ids.take(k as int)[j] == id;
                        assert(ids.take(k + 1)[j] == id);
                    }
                    if id == ids[k as int] {
                        assert(ids.take(k + 1)[k as int] == id);
                    }
                }
                assert forall|j: int| 0 <= j < k + 1 implies {
                    &&& served(fm, #[trigger] insts[j])
                    &&& exists|p: P| may_create(create, *fm[insts[j].provider@], dir, insts[j], Ok(p))
                    &&& !repeats_earlier(ids, j)
                } by {
                    if j == k {
                        assert(may_create(create, *fm[insts[j].provider@], dir, insts[j], Ok(created)));
                    }
                }
                assert forall|j: int| 0 <= j < k + 1 implies {
                    let inst = *registry@[#[trigger] ids[j]];
                    &&& strings_view(inst.allowed_origins@) == strings_view(insts[j].allowed_origins@)
                    &&& may_create(create, *fm[insts[j].provider@], dir, insts[j], Ok(inst.provider))
                } by {
                    if j < k {
                        assert(ids.take(k as int)[j] == ids[j]);
                        assert(ids[j] != ids[k as int]);
                    }
                }
            }
            k = k + 1;
        }
        proof {
            assert(ids.take(insts.len() as int) =~= ids);
        }
        Ok(registry)
    }
}

// ---------------------------------------------------------------------------
// The application
// ---------------------------------------------------------------------------

} // verus!
