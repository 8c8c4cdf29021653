//! Audio nodes: their kinds, lifecycle and the wiring of FIFO producer
//! endpoints between them.
use vstd::prelude::*;
use crate::negotiate::IOStreamConfig;

verus! {

/// Role of a node in the graph.
#[derive(Clone, Copy, Debug, PartialEq, Eq, Structural)]
pub enum AudioNodeType {
    SOURCE,
    GAIN,
    MIXER,
    DESTINATION,
}

/// Lifecycle state of a node: INITIALIZED, then RUNNING and STOPPED in turn.
#[derive(Clone, Copy, Debug, PartialEq, Eq, Structural)]
pub enum AudioNodeState {
    INITIALIZED,
    RUNNING,
    STOPPED,
}

/// How a node moves samples: pulled by its consumer or pushed to it.
#[derive(Clone, Copy, Debug, PartialEq, Eq, Structural)]
pub enum AudioNodeModel {
    PULL,
    PUSH,
}

/// Names of the node implementations.
#[derive(Clone, Copy, Debug, PartialEq, Eq, Structural)]
pub enum AudioNodeName {
    SimulatedAudioWaveSRC,
}

/// The node variants of the graph.
#[derive(Clone, Copy, Debug, PartialEq, Eq, Structural)]
pub enum NodeKind {
    /// Synthetic test tone source.
    Synth,
    /// Decoded audio file source.
    File,
    /// Microphone source.
    Mic,
    /// Equal-weight mixer of several inputs.
    Mixer,
    /// Output device sink.
    Speaker,
}

/// Why `connect` refused.
#[derive(Clone, Copy, Debug, PartialEq, Eq, Structural)]
pub enum ConnectError {
    /// The (source, destination) variant pair is not wired.
    UnsupportedConnection,
    /// The destination has no input producer to hand over (it is already
    /// connected).
    NoProducer,
}

/// The type reported by a node of kind `k`.
pub open spec fn type_of(k: NodeKind) -> AudioNodeType {
    match k {
        NodeKind::Synth | NodeKind::File | NodeKind::Mic => AudioNodeType::SOURCE,
        NodeKind::Mixer => AudioNodeType::MIXER,
        NodeKind::Speaker => AudioNodeType::DESTINATION,
    }
}

/// Whether a node of kind `k` writes into a downstream FIFO, and so needs an
/// output producer to start.
pub open spec fn produces(k: NodeKind) -> bool {
    k != NodeKind::Speaker
}

/// Whether an edge from a `src` node to a `dst` node is supported: sources
/// feed the speaker or a mixer, and a mixer feeds the speaker.
pub open spec fn wired(src: NodeKind, dst: NodeKind) -> bool {
    match src {
        NodeKind::Synth | NodeKind::File | NodeKind::Mic => dst == NodeKind::Speaker || dst
            == NodeKind::Mixer,
        NodeKind::Mixer => dst == NodeKind::Speaker,
        NodeKind::Speaker => false,
    }
}

/// Whether `start` may be called: the node is not running and holds the
/// producer endpoint it needs.
pub open spec fn can_start<P>(n: GraphNode<P>) -> bool {
    n.state != AudioNodeState::RUNNING && (produces(n.kind) ==> n.audio_producer is Some)
}

/// The node after `start`.
pub open spec fn after_start<P>(n: GraphNode<P>) -> GraphNode<P> {
    GraphNode {
        state: AudioNodeState::RUNNING,
        audio_producer: if produces(n.kind) {
            None
        } else {
            n.audio_producer
        },
        ..n
    }
}

/// What `start` hands to the node's worker.
pub open spec fn start_handout<P>(n: GraphNode<P>) -> Option<P> {
    if produces(n.kind) {
        n.audio_producer
    } else {
        None
    }
}

/// The node after `stop`, given what its worker returned.
pub open spec fn after_stop<P>(n: GraphNode<P>, returned: Option<P>) -> GraphNode<P> {
    GraphNode {
        state: AudioNodeState::STOPPED,
        audio_producer: if returned is Some {
            returned
        } else {
            n.audio_producer
        },
        ..n
    }
}

/// The source node after a successful `connect(src, dst)`.
pub open spec fn connected_source<P>(src: GraphNode<P>, dst: GraphNode<P>) -> GraphNode<P> {
    GraphNode {
        audio_producer: handed_producer(dst),
        target_config: if dst.kind == NodeKind::Mixer {
            dst.target_config
        } else {
            dst.config
        },
        ..src
    }
}

/// A node of the graph, generic over the FIFO producer endpoint `P`.
///
/// `audio_producer` is the node's output producer for sources and the mixer,
/// and the producer half of its own input FIFO for the speaker. A mixer keeps
/// the producers of its spare inputs in `input_producers`.
pub struct GraphNode<P> {
    pub kind: NodeKind,
    pub state: AudioNodeState,
    pub audio_producer: Option<P>,
    pub input_producers: Vec<P>,
    /// The configuration of the device behind the node, if any.
    pub config: Option<IOStreamConfig>,
    /// The configuration the node's downstream FIFO expects, once connected.
    pub target_config: Option<IOStreamConfig>,
}

/// Operations common to every node.
pub trait AudioNode {
    /// The node's role.
    fn get_type(&self) -> AudioNodeType;

    /// The node's lifecycle state.
    fn get_state(&self) -> AudioNodeState;
}

impl<P> GraphNode<P> {
    /// A source node (synthetic, file or microphone) with no producer yet.
    pub fn new_source(kind: NodeKind, config: Option<IOStreamConfig>) -> (n: GraphNode<P>)
        requires
            kind == NodeKind::Synth || kind == NodeKind::File || kind == NodeKind::Mic,
        ensures
            n.kind == kind,
            n.state == AudioNodeState::INITIALIZED,
            n.audio_producer is None,
            n.input_producers@.len() == 0,
            n.config == config,
            n.target_config is None,
    {
        GraphNode {
            kind,
            state: AudioNodeState::INITIALIZED,
            audio_producer: None,
            input_producers: Vec::new(),
            config,
            target_config: None,
        }
    }

    /// A mixer node whose inputs are fed through `input_producers`.
    pub fn new_mixer(input_producers: Vec<P>) -> (n: GraphNode<P>)
        ensures
            n.kind == NodeKind::Mixer,
            n.state == AudioNodeState::INITIALIZED,
            n.audio_producer is None,
            n.input_producers@ == input_producers@,
            n.config is None,
            n.target_config is None,
    {
        GraphNode {
            kind: NodeKind::Mixer,
            state: AudioNodeState::INITIALIZED,
            audio_producer: None,
            input_producers,
            config: None,
            target_config: None,
        }
    }

    /// A speaker node for a device with configuration `config`, holding the
    /// producer half of its input FIFO until a source is connected.
    pub fn new_speaker(config: IOStreamConfig, input_producer: P) -> (n: GraphNode<P>)
        ensures
            n.kind == NodeKind::Speaker,
            n.state == AudioNodeState::INITIALIZED,
            n.audio_producer == Some(input_producer),
            n.input_producers@.len() == 0,
            n.config == Some(config),
            n.target_config is None,
    {
        GraphNode {
            kind: NodeKind::Speaker,
            state: AudioNodeState::INITIALIZED,
            audio_producer: Some(input_producer),
            input_producers: Vec::new(),
            config: Some(config),
            target_config: None,
        }
    }

    /// Starts the node. A producing node hands its output producer to the
    /// worker that will write through it, and returns it; the speaker keeps
    /// its input producer and returns `None`.
    pub fn start(&mut self) -> (worker_producer: Option<P>)
        requires
            can_start(*old(self)),
        ensures
            *final(self) == after_start(*old(self)),
            worker_producer == start_handout(*old(self)),
    {
        self.state = AudioNodeState::RUNNING;
        if self.kind != NodeKind::Speaker {
            self.audio_producer.take()
        } else {
            None
        }
    }

    /// Stops the node, taking back the producer its worker returned, if
    /// any. Stopping a stopped node changes nothing more.
    pub fn stop(&mut self, returned: Option<P>)
        ensures
            *final(self) == after_stop(*old(self), returned),
    {
        self.state = AudioNodeState::STOPPED;
        if returned.is_some() {
            self.audio_producer = returned;
        }
    }

    /// Takes the producer of the mixer's spare input `index`, if there is one.
    pub fn take_input_producer(&mut self, index: usize) -> (r: Option<P>)
        ensures
            final(self).kind == old(self).kind,
            final(self).state == old(self).state,
            final(self).audio_producer == old(self).audio_producer,
            final(self).config == old(self).config,
            final(self).target_config == old(self).target_config,
            index < old(self).input_producers@.len() ==> r == Some(
                old(self).input_producers@[index as int],
            ) && final(self).input_producers@ == old(self).input_producers@.remove(index as int),
            index >= old(self).input_producers@.len() ==> r is None && final(self).input_producers@
                == old(self).input_producers@,
    {
        if index < self.input_producers.len() {
            Some(self.input_producers.remove(index))
        } else {
            None
        }
    }
}

impl<P> AudioNode for GraphNode<P> {
    fn get_type(&self) -> (t: AudioNodeType)
        ensures
            t == type_of(self.kind),
    {
        match self.kind {
            NodeKind::Synth | NodeKind::File | NodeKind::Mic => AudioNodeType::SOURCE,
            NodeKind::Mixer => AudioNodeType::MIXER,
            NodeKind::Speaker => AudioNodeType::DESTINATION,
        }
    }

    fn get_state(&self) -> (s: AudioNodeState)
        ensures
            s == self.state,
    {
        self.state
    }
}

/// A pull-model synthetic source that only tracks its lifecycle state.
pub struct SimulatedAudioWaveSRC {
    state: AudioNodeState,
}

impl SimulatedAudioWaveSRC {
    /// A node in state INITIALIZED.
    pub fn init() -> (n: SimulatedAudioWaveSRC)
        ensures
            n.get_state_spec() == AudioNodeState::INITIALIZED,
    {
        SimulatedAudioWaveSRC { state: AudioNodeState::INITIALIZED }
    }

    /// The node's lifecycle state.
    pub closed spec fn get_state_spec(&self) -> AudioNodeState {
        self.state
    }

    /// The node's sample-moving model: pulled by its consumer.
    pub fn get_model(&self) -> (m: AudioNodeModel)
        ensures
            m == AudioNodeModel::PULL,
    {
        AudioNodeModel::PULL
    }

    /// The node's name.
    pub fn get_type(&self) -> (t: AudioNodeName)
        ensures
            t == AudioNodeName::SimulatedAudioWaveSRC,
    {
        AudioNodeName::SimulatedAudioWaveSRC
    }

    /// The node's lifecycle state.
    pub fn get_state(&self) -> (s: AudioNodeState)
        ensures
            s == self.get_state_spec(),
    {
        self.state
    }
}

/// The pull-model node implementations.
pub enum AudioNodeInterface {
    SimulatedAudioWaveSRC(SimulatedAudioWaveSRC),
}

impl AudioNodeInterface {
    /// The wrapped node's lifecycle state.
    pub fn get_state(&self) -> (s: AudioNodeState)
        ensures
            match self {
                AudioNodeInterface::SimulatedAudioWaveSRC(n) => s == n.get_state_spec(),
            },
    {
        match self {
            AudioNodeInterface::SimulatedAudioWaveSRC(n) => n.get_state(),
        }
    }
}

/// Whether `start` may be called on `n` now.
pub fn can_start_now<P>(n: &GraphNode<P>) -> (r: bool)
    ensures
        r == can_start(*n),
{
    n.state != AudioNodeState::RUNNING && (n.kind == NodeKind::Speaker || n.audio_producer.is_some())
}

/// Whether an edge from a `src` node to a `dst` node is supported.
pub fn is_wired(src: NodeKind, dst: NodeKind) -> (r: bool)
    ensures
        r == wired(src, dst),
{
    match src {
        NodeKind::Synth | NodeKind::File | NodeKind::Mic => dst == NodeKind::Speaker || dst
            == NodeKind::Mixer,
        NodeKind::Mixer => dst == NodeKind::Speaker,
        NodeKind::Speaker => false,
    }
}

/// Moves the producer in `dest_slot` into `src_slot`; fails and changes
/// nothing when `dest_slot` is empty.
pub fn transfer_producer<P>(src_slot: &mut Option<P>, dest_slot: &mut Option<P>) -> (r: Result<
    (),
    ConnectError,
>)
    ensures
        *old(dest_slot) is Some ==> r is Ok && *final(src_slot) == *old(dest_slot)
            && *final(dest_slot) is None,
        *old(dest_slot) is None ==> r == Err::<(), ConnectError>(ConnectError::NoProducer)
            && *final(src_slot) == *old(src_slot) && *final(dest_slot) is None,
{
    match dest_slot.take() {
        Some(producer) => {
            *src_slot = Some(producer);
            Ok(())
        },
        None => Err(ConnectError::NoProducer),
    }
}

/// The producer that `dst` hands to a new upstream node, if any: the
/// speaker's input producer, or a mixer's first spare input producer.
pub open spec fn handed_producer<P>(dst: GraphNode<P>) -> Option<P> {
    if dst.kind == NodeKind::Mixer {
        if dst.input_producers@.len() > 0 {
            Some(dst.input_producers@[0])
        } else {
            None
        }
    } else {
        dst.audio_producer
    }
}

/// Connects `source` to `dest`: `dest` surrenders the producer of its input
/// FIFO (a mixer its first spare input), which becomes `source`'s output
/// producer, and `source` learns the configuration its output must have.
/// Fails with `UnsupportedConnection` when the pair is not wired and with
/// `NoProducer` when `dest` has no producer left; then nothing changes.
pub fn connect<P>(source: &mut GraphNode<P>, dest: &mut GraphNode<P>) -> (r: Result<
    (),
    ConnectError,
>)
    ensures
        final(source).kind == old(source).kind,
        final(source).state == old(source).state,
        final(source).input_producers == old(source).input_producers,
        final(source).config == old(source).config,
        final(dest).kind == old(dest).kind,
        final(dest).state == old(dest).state,
        final(dest).config == old(dest).config,
        final(dest).target_config == old(dest).target_config,
        !wired(old(source).kind, old(dest).kind) ==> r == Err::<(), ConnectError>(
            ConnectError::UnsupportedConnection,
        ),
        wired(old(source).kind, old(dest).kind) && handed_producer(*old(dest)) is None ==> r
            == Err::<(), ConnectError>(ConnectError::NoProducer),
        r is Err ==> *final(source) == *old(source) && *final(dest) == *old(dest),
        wired(old(source).kind, old(dest).kind) && handed_producer(*old(dest)) is Some ==> r is Ok,
        r is Ok ==> wired(old(source).kind, old(dest).kind) && handed_producer(*old(dest)) is Some,
        r is Ok ==> *final(source) == connected_source(*old(source), *old(dest)),
        r is Ok && old(dest).kind == NodeKind::Speaker ==> final(dest).audio_producer is None
            && final(dest).input_producers == old(dest).input_producers
            && final(source).target_config == old(dest).config,
        r is Ok && old(dest).kind == NodeKind::Mixer ==> final(dest).audio_producer == old(
            dest,
        ).audio_producer && final(dest).input_producers@ == old(dest).input_producers@.drop_first()
            && final(source).target_config == old(dest).target_config,
{
    if !is_wired(source.kind, dest.kind) {
        return Err(ConnectError::UnsupportedConnection);
    }
    if dest.kind == NodeKind::Mixer {
        if dest.input_producers.len() == 0 {
            return Err(ConnectError::NoProducer);
        }
        match dest.take_input_producer(0) {
            Some(p) => {
                source.audio_producer = Some(p);
                source.target_config = dest.target_config;
                proof {
                    assert(dest.input_producers@ =~= old(dest).input_producers@.drop_first());
                }
                Ok(())
            },
            None => Err(ConnectError::NoProducer),
        }
    } else {
        let r = transfer_producer(&mut source.audio_producer, &mut dest.audio_producer);
        if r.is_ok() {
            source.target_config = dest.config;
        }
        r
    }
}

/// Position of a node kind along the signal flow: sources, then the mixer,
/// then the sink.
pub open spec fn flow_rank(k: NodeKind) -> int {
    match k {
        NodeKind::Synth | NodeKind::File | NodeKind::Mic => 0,
        NodeKind::Mixer => 1,
        NodeKind::Speaker => 2,
    }
}

/// Every supported edge goes strictly downstream, so no sequence of
/// successful connections can close a cycle: the graph stays acyclic.
pub proof fn lemma_wiring_is_acyclic(src: NodeKind, dst: NodeKind)
    requires
        wired(src, dst),
    ensures
        flow_rank(src) < flow_rank(dst),
{
}

/// Lifecycle law: after `connect(a, b)` succeeds and `a` is started and
/// then stopped with the producer its worker was handed, `a` holds its
/// producer endpoint again and may be started a second time without
/// reconnecting.
pub proof fn lemma_restart_after_stop<P>(a: GraphNode<P>, b: GraphNode<P>)
    requires
        wired(a.kind, b.kind),
        handed_producer(b) is Some,
        a.state != AudioNodeState::RUNNING,
    ensures
        can_start(connected_source(a, b)),
        ({
            let a1 = connected_source(a, b);
            let a3 = after_stop(after_start(a1), start_handout(a1));
            &&& a3.audio_producer is Some
            &&& a3.audio_producer == a1.audio_producer
            &&& a3.state == AudioNodeState::STOPPED
            &&& can_start(a3)
        }),
{
}

} // verus!
