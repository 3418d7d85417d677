use std::sync::Arc;
use vstd::prelude::*;

use crate::name_map::NameMap;
use crate::text::surround;

verus! {

/// Failures of the instance and provider-factory registries.
#[derive(Debug)]
pub enum RegistryError {
    DuplicateInstance(String),
    InstanceNotFound(String),
    UnknownProviderType(String),
}

/// [`RegistryError`] with its names taken as character sequences.
pub enum RegistryErrorView {
    DuplicateInstance(Seq<char>),
    InstanceNotFound(Seq<char>),
    UnknownProviderType(Seq<char>),
}

impl View for RegistryError {
    type V = RegistryErrorView;

    open spec fn view(&self) -> RegistryErrorView {
        match self {
            RegistryError::DuplicateInstance(id) => RegistryErrorView::DuplicateInstance(id@),
            RegistryError::InstanceNotFound(id) => RegistryErrorView::InstanceNotFound(id@),
            RegistryError::UnknownProviderType(t) => RegistryErrorView::UnknownProviderType(t@),
        }
    }
}

impl RegistryErrorView {
    /// The text shown for each error.
    pub open spec fn message(self) -> Seq<char> {
        match self {
            RegistryErrorView::DuplicateInstance(id) => "instance '"@ + id
                + "' is already registered"@,
            RegistryErrorView::InstanceNotFound(id) => "instance '"@ + id + "' was not found"@,
            RegistryErrorView::UnknownProviderType(t) => "no provider factory registered for type '"@
                + t + "'"@,
        }
    }
}

impl RegistryError {
    /// The text of the error, as it is shown to users.
    pub fn message(&self) -> (r: String)
        ensures
            r@ == self@.message(),
    {
        match self {
            RegistryError::DuplicateInstance(id) => surround(
                "instance '",
                id.as_str(),
                "' is already registered",
            ),
            RegistryError::InstanceNotFound(id) => surround(
                "instance '",
                id.as_str(),
                "' was not found",
            ),
            RegistryError::UnknownProviderType(t) => surround(
                "no provider factory registered for type '",
                t.as_str(),
                "'",
            ),
        }
    }
}

/// A second handle on the value behind an `Arc`.
#[verifier::external_body]
fn share<T>(a: &Arc<T>) -> (r: Arc<T>)
    ensures
        r == *a,
{
    Arc::clone(a)
}

/// An instance known to the activator: the provider that drives it and
/// the browser origins that may call its endpoints.
pub struct RegisteredInstance<P> {
    pub provider: P,
    pub allowed_origins: Vec<String>,
}

/// The abstract state of an [`InstanceRegistry`]: each registered id bound
/// to its instance.
pub type InstanceMap<P> = Map<Seq<char>, Arc<RegisteredInstance<P>>>;

/// What a lookup of `id` in `m` answers.
pub open spec fn lookup_outcome<P>(m: InstanceMap<P>, id: Seq<char>) -> Result<
    RegisteredInstance<P>,
    RegistryErrorView,
> {
    if m.contains_key(id) {
        Ok(*m[id])
    } else {
        Err(RegistryErrorView::InstanceNotFound(id))
    }
}

/// The registry after an attempt to register `inst` under `id`, and the
/// answer to that attempt.
pub open spec fn register_outcome<P>(
    m: InstanceMap<P>,
    id: Seq<char>,
    inst: RegisteredInstance<P>,
) -> (InstanceMap<P>, Result<(), RegistryErrorView>) {
    if m.contains_key(id) {
        (m, Err(RegistryErrorView::DuplicateInstance(id)))
    } else {
        (m.insert(id, Arc::new(inst)), Ok(()))
    }
}

/// A lookup result, with the instance behind its `Arc` and the error by
/// its view.
pub open spec fn lookup_result_view<P>(
    r: Result<Arc<RegisteredInstance<P>>, RegistryError>,
) -> Result<RegisteredInstance<P>, RegistryErrorView> {
    match r {
        Ok(a) => Ok(*a),
        Err(e) => Err(e@),
    }
}

/// A registration result, with the error by its view.
pub open spec fn unit_result_view(r: Result<(), RegistryError>) -> Result<(), RegistryErrorView> {
    match r {
        Ok(()) => Ok(()),
        Err(e) => Err(e@),
    }
}

/// The instances that the activator manages, by id.
pub struct InstanceRegistry<P> {
    instances: NameMap<Arc<RegisteredInstance<P>>>,
}

impl<P> View for InstanceRegistry<P> {
    type V = InstanceMap<P>;

    closed spec fn view(&self) -> InstanceMap<P> {
        self.instances@
    }
}

impl<P> InstanceRegistry<P> {
    /// An empty registry.
    pub fn new() -> (r: Self)
        ensures
            r@ == Map::<Seq<char>, Arc<RegisteredInstance<P>>>::empty(),
    {
        InstanceRegistry { instances: NameMap::new() }
    }

    /// Registers an instance under `instance_id`; an id can be registered
    /// only once.
    pub fn register(
        &mut self,
        instance_id: String,
        provider: P,
        allowed_origins: Vec<String>,
    ) -> (r: Result<(), RegistryError>)
        ensures
            (final(self)@, unit_result_view(r)) == register_outcome(
                old(self)@,
                instance_id@,
                (RegisteredInstance { provider, allowed_origins }),
            ),
    {
        if self.instances.contains(&instance_id) {
            return Err(RegistryError::DuplicateInstance(instance_id));
        }
        let entry = Arc::new(RegisteredInstance { provider, allowed_origins });
        self.instances.insert(instance_id, entry);
        Ok(())
    }

    /// The instance registered under `instance_id`.
    pub fn get(&self, instance_id: &str) -> (r: Result<Arc<RegisteredInstance<P>>, RegistryError>)
        ensures
            lookup_result_view(r) == lookup_outcome(self@, instance_id@),
    {
        let key = instance_id.to_owned();
        match self.instances.get(&key) {
            Some(entry) => Ok(share(entry)),
            None => Err(RegistryError::InstanceNotFound(key)),
        }
    }

    /// The number of registered instances.
    pub fn len(&self) -> (n: usize)
        ensures
            n == self@.len(),
            self@.dom().finite(),
    {
        self.instances.len()
    }
}

/// A plug-in that builds providers of one type.
pub trait ProviderFactory {
    /// The provider type that this factory serves, such as `mock`.
    spec fn spec_provider_type(&self) -> Seq<char>;

    fn provider_type(&self) -> (r: &'static str)
        ensures
            r@ == self.spec_provider_type(),
    ;
}

/// The abstract state of a [`ProviderFactoryRegistry`]: each provider type
/// bound to the factory that serves it.
pub type FactoryMap<F> = Map<Seq<char>, Arc<F>>;

/// What a lookup of `provider_type` in `m` answers.
pub open spec fn factory_outcome<F>(m: FactoryMap<F>, provider_type: Seq<char>) -> Result<
    F,
    RegistryErrorView,
> {
    if m.contains_key(provider_type) {
        Ok(*m[provider_type])
    } else {
        Err(RegistryErrorView::UnknownProviderType(provider_type))
    }
}

/// A factory lookup result, with the factory behind its `Arc` and the error
/// by its view.
pub open spec fn factory_result_view<F>(r: Result<Arc<F>, RegistryError>) -> Result<
    F,
    RegistryErrorView,
> {
    match r {
        Ok(a) => Ok(*a),
        Err(e) => Err(e@),
    }
}

/// The provider factories that the activator can use, by provider type.
pub struct ProviderFactoryRegistry<F> {
    factories: NameMap<Arc<F>>,
}

impl<F> View for ProviderFactoryRegistry<F> {
    type V = FactoryMap<F>;

    closed spec fn view(&self) -> FactoryMap<F> {
        self.factories@
    }
}

impl<F: ProviderFactory> ProviderFactoryRegistry<F> {
    /// An empty registry.
    pub fn new() -> (r: Self)
        ensures
            r@ == Map::<Seq<char>, Arc<F>>::empty(),
    {
        ProviderFactoryRegistry { factories: NameMap::new() }
    }

    /// Registers `factory` under the provider type it serves, replacing any
    /// factory registered earlier for that type.
    pub fn register(&mut self, factory: Arc<F>)
        ensures
            final(self)@ == old(self)@.insert(factory.spec_provider_type(), factory),
    {
        let key = factory.provider_type().to_owned();
        self.factories.insert(key, factory);
    }

    /// The factory registered for `provider_type`.
    pub fn get(&self, provider_type: &str) -> (r: Result<Arc<F>, RegistryError>)
        ensures
            factory_result_view(r) == factory_outcome(self@, provider_type@),
    {
        let key = provider_type.to_owned();
        match self.factories.get(&key) {
            Some(f) => Ok(share(f)),
            None => Err(RegistryError::UnknownProviderType(key)),
        }
    }
}

} // verus!
