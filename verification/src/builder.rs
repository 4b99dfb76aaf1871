//! What a pipeline is built from, and the order in which it is built.
//!
//! A [`Blueprint`] names the nodes, the static links between them and the
//! properties to set. An [`Assembler`] hands out the build steps one by one
//! and stops at the first step that the framework refuses.

use vstd::prelude::*;
use vstd::string::*;

verus! {

/// A node to create: the factory it is made by and its instance name.
#[derive(Clone, Debug, PartialEq, Eq)]
pub struct NodeSpec {
    pub factory: String,
    pub name: String,
}

/// A static link from the output of one node to the input of another, both
/// given by their position in the blueprint.
#[derive(Clone, Copy, Debug, PartialEq, Eq, Structural)]
pub struct Link {
    pub from: usize,
    pub to: usize,
}

/// A property to set on a node. Where `parse` holds, the value is text
/// that the framework parses into the property's own type; otherwise it is
/// a string value.
#[derive(Clone, Debug, PartialEq, Eq)]
pub struct Setting {
    pub node: usize,
    pub property: String,
    pub value: String,
    pub parse: bool,
}

/// A source whose outputs appear during playback, and the two converters
/// that they are linked to then, all given by their position in the
/// blueprint.
#[derive(Clone, Copy, Debug, PartialEq, Eq, Structural)]
pub struct LateBinding {
    pub source: usize,
    pub audio_converter: usize,
    pub video_converter: usize,
}

/// A pipeline to build.
#[derive(Clone, Debug, PartialEq, Eq)]
pub struct Blueprint {
    pub name: String,
    pub nodes: Vec<NodeSpec>,
    pub links: Vec<Link>,
    pub settings: Vec<Setting>,
    /// What is linked only during playback, if anything.
    pub late: Option<LateBinding>,
}

/// One step of a build.
#[derive(Clone, Copy, Debug, PartialEq, Eq, Structural)]
pub enum Step {
    /// Initialise the framework; doing so again is harmless.
    Initialize,
    /// Create the node at this position by factory lookup.
    Create(usize),
    /// Create the pipeline and add every node to it.
    Gather,
    /// Link the output of the first node to the input of the second.
    Connect(Link),
    /// Apply the setting at this position.
    Configure(usize),
    /// Watch the source of this binding for outputs that appear during
    /// playback.
    Watch(LateBinding),
}

/// Why a build stopped.
#[derive(Clone, Copy, Debug, PartialEq, Eq, Structural)]
pub enum BuildError {
    /// The framework could not be initialised.
    NotInitialized,
    /// No factory of that name: the node at this position was not created.
    UnknownFactory(usize),
    /// The pipeline did not take the nodes.
    NotGathered,
    /// The two nodes could not be linked.
    NotLinked(Link),
    /// The setting at this position was refused.
    NotConfigured(usize),
    /// The source of this binding could not be watched.
    NotWatched(LateBinding),
}

/// What the caller is to do next.
#[derive(Clone, Copy, Debug, PartialEq, Eq, Structural)]
pub enum Directive {
    /// Perform this step and record whether it succeeded.
    Perform(Step),
    /// The pipeline is built.
    Complete,
    /// End the process over this error.
    Abort(BuildError),
}

/// The links of a chain of `count` nodes: each node to the one after it.
pub open spec fn chain_of(count: nat) -> Seq<Link> {
    Seq::new(
        if count == 0 {
            0
        } else {
            (count - 1) as nat
        },
        |i: int| (Link { from: i as usize, to: (i + 1) as usize }),
    )
}

/// The error that a refused step stands for.
pub open spec fn failure_of(step: Step) -> BuildError {
    match step {
        Step::Initialize => BuildError::NotInitialized,
        Step::Create(node) => BuildError::UnknownFactory(node),
        Step::Gather => BuildError::NotGathered,
        Step::Connect(link) => BuildError::NotLinked(link),
        Step::Configure(setting) => BuildError::NotConfigured(setting),
        Step::Watch(binding) => BuildError::NotWatched(binding),
    }
}

/// The step that watches the late source, if there is one.
pub open spec fn watch_steps(late: Option<LateBinding>) -> Seq<Step> {
    match late {
        Some(binding) => seq![Step::Watch(binding)],
        None => Seq::empty(),
    }
}

/// The steps of a build, in order: the framework is initialised; every
/// node is created, in the blueprint's order; the pipeline takes them; the
/// static links are made; the settings are applied; the late source, if
/// any, is watched.
pub open spec fn plan_of(blueprint: Blueprint) -> Seq<Step> {
    seq![Step::Initialize] + Seq::new(blueprint.nodes@.len(), |i: int| Step::Create(i as usize))
        + seq![Step::Gather]
        + Seq::new(blueprint.links@.len(), |i: int| Step::Connect(blueprint.links@[i]))
        + Seq::new(blueprint.settings@.len(), |i: int| Step::Configure(i as usize))
        + watch_steps(blueprint.late)
}

/// Whether the node holds this factory and this name.
pub open spec fn node_is(node: NodeSpec, factory: Seq<char>, name: Seq<char>) -> bool {
    node.factory@ == factory && node.name@ == name
}

/// Whether the setting is this one.
pub open spec fn setting_is(
    setting: Setting,
    node: usize,
    property: Seq<char>,
    value: Seq<char>,
    parse: bool,
) -> bool {
    setting.node == node && setting.property@ == property && setting.value@ == value
        && setting.parse == parse
}

/// Links `count` nodes in sequence.
pub fn chain(count: usize) -> (links: Vec<Link>)
    ensures
        links@ == chain_of(count as nat),
{
    let mut links: Vec<Link> = Vec::new();
    if count == 0 {
        assert(links@ =~= chain_of(0));
        return links;
    }
    let mut i: usize = 1;
    while i < count
        invariant
            1 <= i <= count,
            links@ == chain_of(i as nat),
        decreases count - i,
    {
        links.push(Link { from: i - 1, to: i });
        assert(links@ =~= chain_of((i + 1) as nat));
        i += 1;
    }
    links
}

fn node(factory: &str, name: &str) -> (spec: NodeSpec)
    ensures
        node_is(spec, factory@, name@),
{
    NodeSpec { factory: String::from_str(factory), name: String::from_str(name) }
}

impl Step {
    /// The error to end with when this step is refused.
    pub fn failure(&self) -> (error: BuildError)
        ensures
            error == failure_of(*self),
    {
        match self {
            Step::Initialize => BuildError::NotInitialized,
            Step::Create(node) => BuildError::UnknownFactory(*node),
            Step::Gather => BuildError::NotGathered,
            Step::Connect(link) => BuildError::NotLinked(*link),
            Step::Configure(setting) => BuildError::NotConfigured(*setting),
            Step::Watch(binding) => BuildError::NotWatched(*binding),
        }
    }
}

impl Blueprint {
    /// Every link and every setting speaks of nodes of the blueprint and no
    /// link leads from a node to itself. A late binding speaks of three
    /// different nodes; no static link uses its source's output or a
    /// converter's input.
    pub open spec fn wf(self) -> bool {
        &&& forall|i: int|
            0 <= i < self.links@.len() ==> {
                &&& (#[trigger] self.links@[i]).from < self.nodes@.len()
                &&& self.links@[i].to < self.nodes@.len()
                &&& self.links@[i].from != self.links@[i].to
            }
        &&& forall|i: int|
            0 <= i < self.settings@.len() ==> (#[trigger] self.settings@[i]).node
                < self.nodes@.len()
        &&& match self.late {
            Some(binding) => {
                &&& binding.source < self.nodes@.len()
                &&& binding.audio_converter < self.nodes@.len()
                &&& binding.video_converter < self.nodes@.len()
                &&& binding.source != binding.audio_converter
                &&& binding.source != binding.video_converter
                &&& binding.audio_converter != binding.video_converter
                &&& forall|i: int|
                    0 <= i < self.links@.len() ==> {
                        &&& (#[trigger] self.links@[i]).from != binding.source
                        &&& self.links@[i].to != binding.audio_converter
                        &&& self.links@[i].to != binding.video_converter
                    }
            },
            None => true,
        }
    }

    /// A test picture through an effect filter onto the screen: four nodes
    /// linked in sequence, the source set to the colour-bar pattern.
    pub fn test_pattern() -> (blueprint: Blueprint)
        ensures
            blueprint.wf(),
            blueprint.name@ == "test-pipeline"@,
            blueprint.nodes@.len() == 4,
            node_is(blueprint.nodes@[0], "videotestsrc"@, "source"@),
            node_is(blueprint.nodes@[1], "vertigotv"@, "filter"@),
            node_is(blueprint.nodes@[2], "videoconvert"@, "element"@),
            node_is(blueprint.nodes@[3], "autovideosink"@, "sink"@),
            blueprint.links@ == chain_of(4),
            blueprint.settings@.len() == 1,
            setting_is(blueprint.settings@[0], 0, "pattern"@, "smpte"@, true),
            blueprint.late.is_none(),
    {
        let mut nodes: Vec<NodeSpec> = Vec::new();
        nodes.push(node("videotestsrc", "source"));
        nodes.push(node("vertigotv", "filter"));
        nodes.push(node("videoconvert", "element"));
        nodes.push(node("autovideosink", "sink"));
        let mut settings: Vec<Setting> = Vec::new();
        settings.push(
            Setting {
                node: 0,
                property: String::from_str("pattern"),
                value: String::from_str("smpte"),
                parse: true,
            },
        );
        Blueprint {
            name: String::from_str("test-pipeline"),
            nodes,
            links: chain(4),
            settings,
            late: None,
        }
    }

    /// Playback of the media at `uri`: a decoding source whose outputs are
    /// linked as they appear, and a converter with its sink for audio and
    /// for video. Only the two converters are linked to their sinks.
    pub fn playback(uri: &str) -> (blueprint: Blueprint)
        ensures
            blueprint.wf(),
            blueprint.name@ == "test-pipeline"@,
            blueprint.nodes@.len() == 5,
            node_is(blueprint.nodes@[0], "uridecodebin"@, "source"@),
            node_is(blueprint.nodes@[1], "audioconvert"@, "audio convert"@),
            node_is(blueprint.nodes@[2], "videoconvert"@, "video convert"@),
            node_is(blueprint.nodes@[3], "autoaudiosink"@, "audio sink"@),
            node_is(blueprint.nodes@[4], "autovideosink"@, "video sink"@),
            blueprint.links@ == seq![Link { from: 1, to: 3 }, Link { from: 2, to: 4 }],
            blueprint.settings@.len() == 1,
            setting_is(blueprint.settings@[0], 0, "uri"@, uri@, false),
            blueprint.late == Some(
                LateBinding { source: 0, audio_converter: 1, video_converter: 2 },
            ),
    {
        let mut nodes: Vec<NodeSpec> = Vec::new();
        nodes.push(node("uridecodebin", "source"));
        nodes.push(node("audioconvert", "audio convert"));
        nodes.push(node("videoconvert", "video convert"));
        nodes.push(node("autoaudiosink", "audio sink"));
        nodes.push(node("autovideosink", "video sink"));
        let mut links: Vec<Link> = Vec::new();
        links.push(Link { from: 1, to: 3 });
        links.push(Link { from: 2, to: 4 });
        let mut settings: Vec<Setting> = Vec::new();
        settings.push(
            Setting {
                node: 0,
                property: String::from_str("uri"),
                value: String::from_str(uri),
                parse: false,
            },
        );
        assert(links@ =~= seq![Link { from: 1, to: 3 }, Link { from: 2, to: 4 }]);
        Blueprint {
            name: String::from_str("test-pipeline"),
            nodes,
            links,
            settings,
            late: Some(LateBinding { source: 0, audio_converter: 1, video_converter: 2 }),
        }
    }

    /// The steps of the build, in order.
    pub fn plan(&self) -> (steps: Vec<Step>)
        ensures
            steps@ == plan_of(*self),
    {
        let mut steps: Vec<Step> = Vec::new();
        let ghost created = Seq::new(self.nodes@.len(), |i: int| Step::Create(i as usize));
        let ghost linked = Seq::new(self.links@.len(), |i: int| Step::Connect(self.links@[i]));
        let ghost configured = Seq::new(
            self.settings@.len(),
            |i: int| Step::Configure(i as usize),
        );
        steps.push(Step::Initialize);
        let ghost begun = seq![Step::Initialize];
        let mut i: usize = 0;
        while i < self.nodes.len()
            invariant
                i <= self.nodes@.len(),
                steps@ == begun + created.subrange(0, i as int),
                created.len() == self.nodes@.len(),
                forall|n: int| 0 <= n < created.len() ==> created[n] == Step::Create(n as usize),
            decreases self.nodes@.len() - i,
        {
            steps.push(Step::Create(i));
            assert(steps@ =~= begun + created.subrange(0, i + 1));
            i += 1;
        }
        assert(steps@ =~= begun + created);
        steps.push(Step::Gather);
        let ghost gathered = begun + created + seq![Step::Gather];
        let mut j: usize = 0;
        while j < self.links.len()
            invariant
                j <= self.links@.len(),
                linked.len() == self.links@.len(),
                forall|k: int| 0 <= k < linked.len() ==> linked[k] == Step::Connect(self.links@[k]),
                steps@ == gathered + linked.subrange(0, j as int),
            decreases self.links@.len() - j,
        {
            steps.push(Step::Connect(self.links[j]));
            assert(steps@ =~= gathered + linked.subrange(0, j + 1));
            j += 1;
        }
        assert(steps@ =~= gathered + linked);
        let mut k: usize = 0;
        while k < self.settings.len()
            invariant
                k <= self.settings@.len(),
                configured.len() == self.settings@.len(),
                forall|n: int| 0 <= n < configured.len() ==> configured[n] == Step::Configure(
                    n as usize,
                ),
                steps@ == gathered + linked + configured.subrange(0, k as int),
            decreases self.settings@.len() - k,
        {
            steps.push(Step::Configure(k));
            assert(steps@ =~= gathered + linked + configured.subrange(0, k + 1));
            k += 1;
        }
        assert(steps@ =~= gathered + linked + configured);
        match self.late {
            Some(binding) => {
                steps.push(Step::Watch(binding));
            },
            None => {},
        }
        assert(steps@ =~= plan_of(*self));
        steps
    }
}

} // verus!
