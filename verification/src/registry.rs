//! The tool registry: the named tools that one server exposes, assembled
//! once and then frozen.

use vstd::prelude::*;

verus! {

/// The shape that the value of a parameter must have.
#[derive(Clone, Copy, Debug, PartialEq, Eq, Structural)]
pub enum ParamKind {
    /// A string.
    Text,
    /// Any number.
    Number,
    /// A whole number from 0 to `u32::MAX`.
    Unsigned32,
    /// A whole number from 0 to `u64::MAX`.
    Unsigned64,
    /// A list of values.
    List,
}

/// One declared parameter of a tool.
#[derive(Debug, PartialEq)]
pub struct ToolParam {
    pub name: String,
    pub description: String,
    pub kind: ParamKind,
    pub required: bool,
}

/// The mathematical value of a parameter.
pub struct ParamView {
    pub name: Seq<char>,
    pub description: Seq<char>,
    pub kind: ParamKind,
    pub required: bool,
}

impl View for ToolParam {
    type V = ParamView;

    open spec fn view(&self) -> ParamView {
        ParamView {
            name: self.name@,
            description: self.description@,
            kind: self.kind,
            required: self.required,
        }
    }
}

/// What a sequence of parameters declares.
pub open spec fn param_views(params: Seq<ToolParam>) -> Seq<ParamView> {
    params.map_values(|param: ToolParam| param@)
}

/// No parameters at all.
pub fn no_params() -> (params: Vec<ToolParam>)
    ensures
        param_views(params@) == Seq::<ParamView>::empty(),
{
    let params: Vec<ToolParam> = Vec::new();
    proof {
        assert(param_views(params@) =~= Seq::<ParamView>::empty());
    }
    params
}

/// Puts a parameter behind `params`.
pub fn push_param(
    params: &mut Vec<ToolParam>,
    name: &str,
    description: &str,
    kind: ParamKind,
    required: bool,
)
    ensures
        param_views(final(params)@) == param_views(old(params)@).push(
            ParamView { name: name@, description: description@, kind, required },
        ),
{
    params.push(
        ToolParam {
            name: String::from_str(name),
            description: String::from_str(description),
            kind,
            required,
        },
    );
    proof {
        assert(param_views(params@) =~= param_views(old(params)@).push(
            ParamView { name: name@, description: description@, kind, required },
        ));
    }
}

/// The metadata of a tool together with what runs it.
#[derive(Debug, PartialEq)]
pub struct ToolDescriptor<H> {
    pub name: String,
    pub description: String,
    pub parameters: Vec<ToolParam>,
    pub handler: H,
}

/// The features that a server declares.
#[derive(Clone, Copy, Debug, PartialEq, Eq, Structural)]
pub struct ServerCapabilities {
    pub tools: bool,
    pub prompts: bool,
    pub resources: bool,
    pub logging: bool,
    pub experimental: bool,
}

/// Why a registry operation was refused.
#[derive(Clone, Copy, Debug, PartialEq, Eq, Structural)]
pub enum RegistryError {
    /// A tool of that name is registered already.
    DuplicateToolName,
    /// The registry was built; it takes no more tools.
    RegistryFrozen,
    /// No tool of that name is registered.
    ToolNotFound,
    /// A tool must have a name.
    EmptyToolName,
}

/// The mathematical value of a registry.
pub struct RegistryView<H> {
    pub server_name: Seq<char>,
    pub server_version: Seq<char>,
    pub capabilities: ServerCapabilities,
    /// The tools, in the order of their registration.
    pub tools: Seq<ToolDescriptor<H>>,
    pub frozen: bool,
}

impl<H> RegistryView<H> {
    /// The names of the tools, in the order of their registration.
    pub open spec fn names(self) -> Seq<Seq<char>> {
        self.tools.map_values(|d: ToolDescriptor<H>| d.name@)
    }

    /// Whether a tool called `name` is registered.
    pub open spec fn contains(self, name: Seq<char>) -> bool {
        exists|i: int| 0 <= i < self.tools.len() && (#[trigger] self.tools[i]).name@ == name
    }

    /// The place of a tool called `name`, where one is registered.
    pub open spec fn position(self, name: Seq<char>) -> int {
        choose|i: int| 0 <= i < self.tools.len() && (#[trigger] self.tools[i]).name@ == name
    }

    /// Every tool has a name, and no two tools share one.
    pub open spec fn wf(self) -> bool {
        &&& forall|i: int| 0 <= i < self.tools.len() ==> (#[trigger] self.tools[i]).name@.len() > 0
        &&& forall|i: int, j: int|
            0 <= i < j < self.tools.len() ==> (#[trigger] self.tools[i]).name@ != (
            #[trigger] self.tools[j]).name@
    }

    /// The registry with no tools in it, still open.
    pub open spec fn empty(server_name: Seq<char>, server_version: Seq<char>) -> RegistryView<H> {
        RegistryView {
            server_name,
            server_version,
            capabilities: ServerCapabilities {
                tools: false,
                prompts: false,
                resources: false,
                logging: false,
                experimental: false,
            },
            tools: Seq::empty(),
            frozen: false,
        }
    }

    /// The registry after its features were declared: with these features
    /// while it is open, and unchanged once it is built.
    pub open spec fn declare(self, capabilities: ServerCapabilities) -> RegistryView<H> {
        if self.frozen {
            self
        } else {
            RegistryView { capabilities, ..self }
        }
    }

    /// What `lookup` finds under `name`.
    pub open spec fn lookup(self, name: Seq<char>) -> Result<ToolDescriptor<H>, RegistryError> {
        if self.contains(name) {
            Ok(self.tools[self.position(name)])
        } else {
            Err(RegistryError::ToolNotFound)
        }
    }

    /// Why `register` would refuse `descriptor`, if it would.
    pub open spec fn refusal(self, descriptor: ToolDescriptor<H>) -> Option<RegistryError> {
        if self.frozen {
            Some(RegistryError::RegistryFrozen)
        } else if descriptor.name@.len() == 0 {
            Some(RegistryError::EmptyToolName)
        } else if self.contains(descriptor.name@) {
            Some(RegistryError::DuplicateToolName)
        } else {
            None
        }
    }

    /// The registry after an attempt to register `descriptor`: unchanged
    /// where the attempt is refused, and with the descriptor in last place
    /// where it is not.
    pub open spec fn register(self, descriptor: ToolDescriptor<H>) -> RegistryView<H> {
        if self.refusal(descriptor) is Some {
            self
        } else {
            RegistryView { tools: self.tools.push(descriptor), ..self }
        }
    }

    /// The registry once built: the same tools, frozen.
    pub open spec fn build(self) -> RegistryView<H> {
        RegistryView { frozen: true, ..self }
    }
}

/// Registering keeps every tool named and every name unique.
pub proof fn lemma_register_keeps_wf<H>(registry: RegistryView<H>, descriptor: ToolDescriptor<H>)
    requires
        registry.wf(),
    ensures
        registry.register(descriptor).wf(),
{
    let after = registry.register(descriptor);
    if registry.refusal(descriptor) is None {
        assert forall|i: int, j: int| 0 <= i < j < after.tools.len() implies (
        #[trigger] after.tools[i]).name@ != (#[trigger] after.tools[j]).name@ by {
            if j == registry.tools.len() {
                assert(after.tools[i] == registry.tools[i]);
            }
        }
    }
}

/// Every registered tool is found under its name, and what is found is the
/// descriptor that was registered.
pub proof fn lemma_lookup_finds_registered<H>(registry: RegistryView<H>, i: int)
    requires
        registry.wf(),
        0 <= i < registry.tools.len(),
    ensures
        registry.lookup(registry.tools[i].name@) == Ok::<ToolDescriptor<H>, RegistryError>(
            registry.tools[i],
        ),
{
    let name = registry.tools[i].name@;
    let chosen = registry.position(name);
    if chosen < i {
        assert(registry.tools[chosen].name@ != registry.tools[i].name@);
    } else if i < chosen {
        assert(registry.tools[i].name@ != registry.tools[chosen].name@);
    }
}

/// A name that was never registered is not found.
pub proof fn lemma_lookup_misses_unregistered<H>(registry: RegistryView<H>, name: Seq<char>)
    requires
        forall|i: int|
            0 <= i < registry.tools.len() ==> (#[trigger] registry.tools[i]).name@ != name,
    ensures
        registry.lookup(name) == Err::<ToolDescriptor<H>, RegistryError>(
            RegistryError::ToolNotFound,
        ),
{
}

/// After a registration that was accepted, the new tool is found under its
/// name and every other name is found, or not, as before.
pub proof fn lemma_lookup_after_register<H>(
    registry: RegistryView<H>,
    descriptor: ToolDescriptor<H>,
    name: Seq<char>,
)
    requires
        registry.wf(),
        registry.refusal(descriptor) is None,
    ensures
        name == descriptor.name@ ==> registry.register(descriptor).lookup(name) == Ok::<
            ToolDescriptor<H>,
            RegistryError,
        >(descriptor),
        name != descriptor.name@ ==> registry.register(descriptor).lookup(name)
            == registry.lookup(name),
{
    let after = registry.register(descriptor);
    let last = registry.tools.len() as int;
    lemma_register_keeps_wf(registry, descriptor);
    assert(after.tools[last] == descriptor);
    if name == descriptor.name@ {
        lemma_lookup_finds_registered(after, last);
    } else if registry.contains(name) {
        let at = registry.position(name);
        assert(after.tools[at] == registry.tools[at]);
        lemma_lookup_finds_registered(after, at);
    } else {
        assert forall|i: int| 0 <= i < after.tools.len() implies (#[trigger] after.tools[i]).name@
            != name by {
            if i < last {
                assert(after.tools[i] == registry.tools[i]);
            }
        }
    }
}

/// Of two descriptors with one name, the second is refused with
/// `DuplicateToolName`, the registry stays as the first left it, and the
/// name still leads to the first.
pub proof fn lemma_first_registration_stays<H>(
    registry: RegistryView<H>,
    first: ToolDescriptor<H>,
    second: ToolDescriptor<H>,
)
    requires
        registry.wf(),
        registry.refusal(first) is None,
        second.name@ == first.name@,
    ensures
        registry.register(first).refusal(second) == Some(RegistryError::DuplicateToolName),
        registry.register(first).register(second) == registry.register(first),
        registry.register(first).register(second).lookup(first.name@) == Ok::<
            ToolDescriptor<H>,
            RegistryError,
        >(first),
{
    let after = registry.register(first);
    let last = registry.tools.len() as int;
    assert(after.tools[last].name@ == second.name@);
    lemma_lookup_after_register(registry, first, first.name@);
}

/// A built registry refuses every registration with `RegistryFrozen`, and
/// holds after the attempt the tools that it held before `build`: every
/// name is found, or not, as it was.
pub proof fn lemma_built_registry_is_frozen<H>(
    registry: RegistryView<H>,
    descriptor: ToolDescriptor<H>,
    name: Seq<char>,
)
    ensures
        registry.build().refusal(descriptor) == Some(RegistryError::RegistryFrozen),
        registry.build().register(descriptor) == registry.build(),
        registry.build().tools == registry.tools,
        registry.build().register(descriptor).lookup(name) == registry.lookup(name),
{
    let built = registry.build();
    assert(built.contains(name) == registry.contains(name));
    assert(built.position(name) == registry.position(name));
}

/// The tools of one server, by name. Tools are registered while the
/// registry is open; `build` freezes it.
pub struct Registry<H> {
    server_name: String,
    server_version: String,
    capabilities: ServerCapabilities,
    tools: Vec<ToolDescriptor<H>>,
    frozen: bool,
}

impl<H> View for Registry<H> {
    type V = RegistryView<H>;

    closed spec fn view(&self) -> RegistryView<H> {
        RegistryView {
            server_name: self.server_name@,
            server_version: self.server_version@,
            capabilities: self.capabilities,
            tools: self.tools@,
            frozen: self.frozen,
        }
    }
}

impl<H> Registry<H> {
    #[verifier::type_invariant]
    spec fn names_are_unique(&self) -> bool {
        self@.wf()
    }

    /// An open registry without tools, for the server `server_name` in
    /// version `server_version`.
    pub fn new(server_name: String, server_version: String) -> (registry: Registry<H>)
        ensures
            registry@ == RegistryView::<H>::empty(server_name@, server_version@),
            registry@.wf(),
    {
        Registry {
            server_name,
            server_version,
            capabilities: ServerCapabilities {
                tools: false,
                prompts: false,
                resources: false,
                logging: false,
                experimental: false,
            },
            tools: Vec::new(),
            frozen: false,
        }
    }

    /// Declares the server's features. A built registry stays as it is.
    pub fn capabilities(self, capabilities: ServerCapabilities) -> (registry: Registry<H>)
        ensures
            registry@ == self@.declare(capabilities),
            registry@.wf(),
    {
        proof {
            use_type_invariant(&self);
            assert(self@.wf());
            assert(self@.tools == self.tools@);
        }
        if self.frozen {
            return self;
        }
        Registry {
            server_name: self.server_name,
            server_version: self.server_version,
            capabilities,
            tools: self.tools,
            frozen: false,
        }
    }

    /// Registers `descriptor`. A frozen registry refuses with
    /// `RegistryFrozen`, a descriptor without a name is refused with
    /// `EmptyToolName`, and a name that is taken with `DuplicateToolName`;
    /// a refusal leaves the registry as it was.
    pub fn register(&mut self, descriptor: ToolDescriptor<H>) -> (outcome: Result<
        (),
        RegistryError,
    >)
        ensures
            final(self)@ == old(self)@.register(descriptor),
            final(self)@.wf(),
            match outcome {
                Ok(()) => old(self)@.refusal(descriptor) is None,
                Err(e) => old(self)@.refusal(descriptor) == Some(e),
            },
    {
        proof {
            use_type_invariant(&*self);
        }
        if self.frozen {
            return Err(RegistryError::RegistryFrozen);
        }
        if descriptor.name.as_str().unicode_len() == 0 {
            return Err(RegistryError::EmptyToolName);
        }
        let mut i: usize = 0;
        while i < self.tools.len()
            invariant
                i <= self.tools.len(),
                *self == *old(self),
                forall|k: int| 0 <= k < i ==> (#[trigger] self.tools@[k]).name@ != descriptor.name@,
            decreases self.tools.len() - i,
        {
            if self.tools[i].name == descriptor.name {
                return Err(RegistryError::DuplicateToolName);
            }
            i += 1;
        }
        let mut tools: Vec<ToolDescriptor<H>> = Vec::new();
        core::mem::swap(&mut self.tools, &mut tools);
        tools.push(descriptor);
        core::mem::swap(&mut self.tools, &mut tools);
        Ok(())
    }

    /// Freezes the registry: from now on it takes no more tools.
    pub fn build(self) -> (registry: Registry<H>)
        ensures
            registry@ == self@.build(),
            registry@.wf(),
    {
        proof {
            use_type_invariant(&self);
            assert(self@.wf());
            assert(self@.tools == self.tools@);
        }
        Registry {
            server_name: self.server_name,
            server_version: self.server_version,
            capabilities: self.capabilities,
            tools: self.tools,
            frozen: true,
        }
    }

    /// The descriptor registered under `name`, or `ToolNotFound`.
    pub fn lookup(&self, name: &str) -> (found: Result<&ToolDescriptor<H>, RegistryError>)
        ensures
            self@.wf(),
            match found {
                Ok(d) => self@.lookup(name@) == Ok::<ToolDescriptor<H>, RegistryError>(*d)
                    && d.name@ == name@,
                Err(e) => self@.lookup(name@) == Err::<ToolDescriptor<H>, RegistryError>(e)
                    && e == RegistryError::ToolNotFound,
            },
    {
        proof {
            use_type_invariant(self);
        }
        let key = String::from_str(name);
        let mut i: usize = 0;
        while i < self.tools.len()
            invariant
                i <= self.tools.len(),
                forall|k: int| 0 <= k < i ==> (#[trigger] self.tools@[k]).name@ != name@,
            decreases self.tools.len() - i,
        {
            if self.tools[i].name == key {
                proof {
                    let at = i as int;
                    assert(self@.tools[at].name@ == name@);
                    let chosen = self@.position(name@);
                    assert(chosen == at) by {
                        if chosen < at {
                            assert(self@.tools[chosen].name@ != self@.tools[at].name@);
                        } else if at < chosen {
                            assert(self@.tools[at].name@ != self@.tools[chosen].name@);
                        }
                    }
                }
                return Ok(&self.tools[i]);
            }
            i += 1;
        }
        Err(RegistryError::ToolNotFound)
    }

    /// The number of registered tools.
    pub fn len(&self) -> (n: usize)
        ensures
            n == self@.tools.len(),
    {
        self.tools.len()
    }

    /// Whether the registry was built.
    pub fn is_frozen(&self) -> (frozen: bool)
        ensures
            frozen == self@.frozen,
    {
        self.frozen
    }

    /// The registered tools, in the order of their registration.
    pub fn tools(&self) -> (tools: &Vec<ToolDescriptor<H>>)
        ensures
            tools@ == self@.tools,
            self@.wf(),
    {
        proof {
            use_type_invariant(self);
        }
        &self.tools
    }

    /// The server's name.
    pub fn server_name(&self) -> (name: &String)
        ensures
            name@ == self@.server_name,
    {
        &self.server_name
    }

    /// The server's version.
    pub fn server_version(&self) -> (version: &String)
        ensures
            version@ == self@.server_version,
    {
        &self.server_version
    }

    /// The features that the server declares.
    pub fn declared_capabilities(&self) -> (capabilities: ServerCapabilities)
        ensures
            capabilities == self@.capabilities,
    {
        self.capabilities
    }
}

} // verus!
