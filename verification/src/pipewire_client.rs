//! The handle through which callers talk to the PipeWire connection thread.
use vstd::prelude::*;
use std::sync::mpsc::{Receiver, Sender};
use intmap::IntMap;
use crate::pipewire::{
    device_node_props, node_info_from_props, node_info_from_reply, settings_from_reply, spec_prop,
    Message, MessageRepl, NodeInfo, NodeKind, Props, Settings,
};

verus! {

#[verifier::external_type_specification]
#[verifier::external_body]
#[verifier::reject_recursive_types(T)]
pub struct ExSender<T>(Sender<T>);

#[verifier::external_type_specification]
#[verifier::external_body]
#[verifier::reject_recursive_types(T)]
pub struct ExReceiver<T>(Receiver<T>);

/// The text `format!("{:?}", m)` gives for a request: its derived `Debug` form.
pub uninterp spec fn message_debug_text(m: Message) -> Seq<char>;

/// Sends `message` on the channel with `Sender::send`. A send fails only when the receiving
/// thread has gone, and the error then hands the request back; it is reported as the
/// request's debug text. Whether the send succeeds depends on the other thread.
#[verifier::external_body]
fn send_message(sender: &Sender<Message>, message: Message) -> (r: Result<(), String>)
    ensures
        r matches Err(e) ==> e@ == message_debug_text(message),
{
    sender.send(message).map_err(|e| format!("{:?}", e.0))
}

/// Waits for a reply with `Receiver::recv`. It fails only when the sending thread has gone,
/// with the unit error `RecvError`, reported as its derived debug text, the bare name. The
/// reply itself depends on the other thread.
#[verifier::external_body]
fn receive_reply(receiver: &Receiver<MessageRepl>) -> (r: Result<MessageRepl, String>)
    ensures
        r matches Err(e) ==> e@ == "RecvError"@,
{
    receiver.recv().map_err(|e| format!("{:?}", e))
}

/// The request for the server's clock settings.
pub fn settings_request() -> (m: Message)
    ensures
        m == Message::GetSettings,
{
    Message::GetSettings
}

/// The request to create a node named `name` of kind `device_type`, linking its ports
/// automatically when `autoconnect` is set.
pub fn node_request(name: String, device_type: NodeKind, autoconnect: bool) -> (m: Message)
    ensures
        m == (Message::CreateDeviceNode { name, device_type, autoconnect }),
{
    Message::CreateDeviceNode { name, device_type, autoconnect }
}

/// A connection to the PipeWire thread: requests go out on one channel and replies come back
/// on another.
pub struct PWClient {
    pw_sender: Sender<Message>,
    main_receiver: Receiver<MessageRepl>,
}

impl PWClient {
    /// The channel requests go out on.
    pub closed spec fn sender(&self) -> Sender<Message> {
        self.pw_sender
    }

    /// The channel replies come back on.
    pub closed spec fn receiver(&self) -> Receiver<MessageRepl> {
        self.main_receiver
    }

    /// A client over the two ends of an already running connection thread.
    pub fn from_channels(pw_sender: Sender<Message>, main_receiver: Receiver<MessageRepl>) -> (c: PWClient)
        ensures
            c.sender() == pw_sender,
            c.receiver() == main_receiver,
    {
        PWClient { pw_sender, main_receiver }
    }

    /// Asks the thread for the server's clock settings with one settings request. A failed
    /// send is reported as the request's debug text, a failed receive as `RecvError`, and a
    /// reply of the wrong kind as an empty error; a settings reply is returned as it came.
    pub fn get_settings(&self) -> (r: Result<Settings, String>)
        ensures
            r matches Err(e) ==> (e@ == message_debug_text(Message::GetSettings) || e@ == "RecvError"@
                || e@.len() == 0),
    {
        match send_message(&self.pw_sender, settings_request()) {
            Ok(_) => settings_from_reply(receive_reply(&self.main_receiver)),
            Err(err) => Err(err),
        }
    }

    /// Asks the thread, with one node request, to create a node named `name` of kind
    /// `device_type`, linking its ports automatically when `connect_ports_automatically` is
    /// set, and returns the new node. A failed send is reported as the request's debug text, a
    /// failed receive as `RecvError`, and a reply of the wrong kind as an empty error.
    pub fn create_device_node(
        &self,
        name: String,
        device_type: NodeKind,
        connect_ports_automatically: bool,
    ) -> (r: Result<NodeInfo, String>)
        ensures
            r matches Err(e) ==> (e@ == message_debug_text(
                Message::CreateDeviceNode { name, device_type, autoconnect: connect_ports_automatically },
            ) || e@ == "RecvError"@ || e@.len() == 0),
    {
        let message = node_request(name, device_type, connect_ports_automatically);
        match send_message(&self.pw_sender, message) {
            Ok(_) => node_info_from_reply(receive_reply(&self.main_receiver)),
            Err(err) => Err(err),
        }
    }

    /// Asks the thread to stop. Whether the thread received the request is not reported.
    pub fn terminate(&self) {
        let _ = send_message(&self.pw_sender, Message::Terminate);
    }
}

#[verifier::external_type_specification]
#[verifier::external_body]
#[verifier::reject_recursive_types(V)]
pub struct ExIntMap<V>(IntMap<V>);

/// What a map of nodes holds: under each key, the name and id of the node stored there.
pub uninterp spec fn node_map_contents(m: IntMap<NodeInfo>) -> Map<u64, (Seq<char>, u32)>;

/// `IntMap::new`: a map that holds nothing.
#[verifier::external_body]
fn node_map_new() -> (fresh: IntMap<NodeInfo>)
    ensures
        node_map_contents(fresh).dom() == Set::<u64>::empty(),
{
    IntMap::new()
}

/// `IntMap::len`: the number of keys the map holds. The count is kept by `insert`, which
/// adds one only for a key not yet present.
#[verifier::external_body]
fn node_map_len(m: &IntMap<NodeInfo>) -> (n: usize)
    ensures
        n == node_map_contents(*m).dom().len(),
{
    m.len()
}

/// `IntMap::get`: the value stored under `key`, if any.
#[verifier::external_body]
fn node_map_get(m: &IntMap<NodeInfo>, key: u64) -> (r: Option<&NodeInfo>)
    ensures
        r is Some <==> node_map_contents(*m).contains_key(key),
        r matches Some(v) ==> (v.name@, v.id) == node_map_contents(*m)[key],
{
    m.get(key)
}

/// `IntMap::insert`: stores `value` under `key`, replacing and returning what was stored
/// there before. The map multiplies its entry count by 1000 when it checks its load, so
/// that product must fit in a `usize`.
#[verifier::external_body]
fn node_map_insert(m: &mut IntMap<NodeInfo>, key: u64, value: NodeInfo) -> (previous: Option<NodeInfo>)
    requires
        (node_map_contents(*old(m)).dom().len() + 1) * 1000 <= usize::MAX,
    ensures
        node_map_contents(*final(m)) == node_map_contents(*old(m)).insert(key, (value.name@, value.id)),
        previous is Some <==> node_map_contents(*old(m)).contains_key(key),
        previous matches Some(v) ==> (v.name@, v.id) == node_map_contents(*old(m))[key],
{
    m.insert(key, value)
}

/// The name a node entry gets: its nick, else its description, else "Unknown device".
pub open spec fn spec_node_name(props: Seq<(String, String)>) -> Seq<char> {
    match spec_prop(props, "node.nick"@) {
        Some(v) => v,
        None => match spec_prop(props, "node.description"@) {
            Some(v) => v,
            None => "Unknown device"@,
        },
    }
}

/// Whether a node entry is an audio source or sink.
pub open spec fn spec_is_audio_node(props: Seq<(String, String)>) -> bool {
    spec_prop(props, "media.class"@) == Some("Audio/Source"@)
        || spec_prop(props, "media.class"@) == Some("Audio/Sink"@)
}

/// What the connection thread does for a request.
pub enum ThreadAction {
    /// Stop the main loop.
    Quit,
    /// Send this reply back.
    Reply(MessageRepl),
    /// Create a node named `name` with these properties, then reply with its id.
    CreateNode { name: String, props: Props },
    /// Nothing.
    Ignore,
}

/// What the connection thread knows of the server: its clock settings and the audio nodes
/// it announced, keyed by id.
pub struct ConnectionState {
    pub settings: Settings,
    pub devices: IntMap<NodeInfo>,
}

impl ConnectionState {
    /// The audio nodes recorded so far: under each id, the node's name and id.
    pub open spec fn devices(&self) -> Map<u64, (Seq<char>, u32)> {
        node_map_contents(self.devices)
    }

    /// A state with default settings and no nodes.
    pub fn new() -> (s: ConnectionState)
        ensures
            s.devices() == Map::<u64, (Seq<char>, u32)>::empty(),
            s.settings.allowed_sample_rates@ == Seq::<u32>::empty(),
            s.settings.min_buffer_size == 0,
            s.settings.max_buffer_size == 0,
            s.settings.default_buffer_size == 0,
    {
        ConnectionState {
            settings: Settings {
                allowed_sample_rates: Vec::new(),
                min_buffer_size: 0,
                max_buffer_size: 0,
                default_buffer_size: 0,
            },
            devices: node_map_new(),
        }
    }

    /// How many audio nodes are recorded.
    pub fn device_count(&self) -> (n: usize)
        ensures
            n == self.devices().dom().len(),
    {
        node_map_len(&self.devices)
    }

    /// The audio node recorded under `id`, if any.
    pub fn device(&self, id: u64) -> (r: Option<&NodeInfo>)
        ensures
            r is Some <==> self.devices().contains_key(id),
            r matches Some(v) ==> (v.name@, v.id) == self.devices()[id],
    {
        node_map_get(&self.devices, id)
    }

    /// Records the node the registry announced under `id` with properties `props` when it is
    /// an audio source or sink, named by its nick, else its description, else "Unknown
    /// device"; a node already recorded under that id is replaced. Other nodes are ignored.
    pub fn add_node(&mut self, id: u32, props: &Props)
        requires
            (old(self).devices().dom().len() + 1) * 1000 <= usize::MAX,
        ensures
            final(self).devices() == if spec_is_audio_node(props@) {
                old(self).devices().insert(id as u64, (spec_node_name(props@), id))
            } else {
                old(self).devices()
            },
            final(self).settings == old(self).settings,
    {
        match node_info_from_props(id, props) {
            Some(info) => {
                let _ = node_map_insert(&mut self.devices, id as u64, info);
            },
            None => {},
        }
    }

    /// A copy of the current settings.
    pub fn copy_settings(&self) -> (s: Settings)
        ensures
            s.allowed_sample_rates@ == self.settings.allowed_sample_rates@,
            s.min_buffer_size == self.settings.min_buffer_size,
            s.max_buffer_size == self.settings.max_buffer_size,
            s.default_buffer_size == self.settings.default_buffer_size,
    {
        let rates = self.settings.allowed_sample_rates.clone();
        assert(rates@ =~= self.settings.allowed_sample_rates@);
        Settings {
            allowed_sample_rates: rates,
            min_buffer_size: self.settings.min_buffer_size,
            max_buffer_size: self.settings.max_buffer_size,
            default_buffer_size: self.settings.default_buffer_size,
        }
    }

    /// What the thread does for `message`: a stop request quits the loop, a settings request
    /// is answered with the current settings, a node request creates a null-audio-sink adapter
    /// of the requested kind, and a device listing request does nothing.
    pub fn handle_message(&self, message: Message) -> (a: ThreadAction)
        ensures
            message is Terminate ==> a is Quit,
            message is EnumerateDevices ==> a is Ignore,
            message is GetSettings ==> (a matches ThreadAction::Reply(MessageRepl::Settings(s))
                && s.allowed_sample_rates@ == self.settings.allowed_sample_rates@
                && s.min_buffer_size == self.settings.min_buffer_size
                && s.max_buffer_size == self.settings.max_buffer_size
                && s.default_buffer_size == self.settings.default_buffer_size),
            message matches Message::CreateDeviceNode { name, device_type, autoconnect } ==> (
                a matches ThreadAction::CreateNode { name: n, props }
                && n@ == name@
                && props@.len() == 5
                && spec_prop(props@, "node.name"@) == Some(name@)
                && spec_prop(props@, "factory.name"@) == Some("support.null-audio-sink"@)
                && spec_prop(props@, "media.type"@) == Some("Audio"@)
                && spec_prop(props@, "media.category"@) == Some(
                    if device_type == NodeKind::InputDevice { "Capture"@ } else { "Playback"@ },
                )
                && spec_prop(props@, "node.autoconnect"@) == Some(
                    if autoconnect { "true"@ } else { "false"@ },
                )),
    {
        match message {
            Message::Terminate => ThreadAction::Quit,
            Message::GetSettings => ThreadAction::Reply(MessageRepl::Settings(self.copy_settings())),
            Message::CreateDeviceNode { name, device_type, autoconnect } => {
                let props = device_node_props(name.as_str(), device_type, autoconnect);
                ThreadAction::CreateNode { name, props }
            },
            Message::EnumerateDevices => ThreadAction::Ignore,
        }
    }
}

} // verus!
