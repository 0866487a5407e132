//! Messages of the inbound protocol and the routing filter.
//!
//! A datagram carries one addressed message or a bundle of packets. Only a
//! message on the command channel whose first two arguments are
//! single-precision numbers carries a command; everything else is unmatched
//! traffic and is passed over.

use vstd::prelude::*;
use crate::arbiter::{arbitrate, arbitration, PredictionPair};
use crate::drive::DriveCommand;

verus! {

/// Address of the command channel.
pub const COMMAND_CHANNEL: &'static str = "/neuropype";

/// One argument of a message, as far as the routing reads it.
#[derive(Clone, Copy, Debug, PartialEq, Eq, Structural)]
pub enum Argument {
    /// A single-precision number, by its bit pattern.
    Float(u32),
    /// An argument of any other type.
    Other,
}

/// An addressed message.
#[derive(Debug)]
pub struct Message {
    pub addr: String,
    pub args: Vec<Argument>,
}

/// What a datagram decodes to.
#[derive(Debug)]
pub enum Packet {
    Message(Message),
    Bundle(Vec<Packet>),
}

/// A message as a mathematical value.
pub struct MessageView {
    pub addr: Seq<char>,
    pub args: Seq<Argument>,
}

/// A packet as a mathematical value.
pub enum PacketView {
    Message(MessageView),
    Bundle(Seq<PacketView>),
}

impl View for Message {
    type V = MessageView;

    open spec fn view(&self) -> MessageView {
        MessageView { addr: self.addr@, args: self.args@ }
    }
}

/// The mathematical value of a packet: a message by its view, a bundle by
/// the values of its members in their order.
pub open spec fn packet_view(packet: Packet) -> PacketView
    decreases packet,
{
    match packet {
        Packet::Message(message) => PacketView::Message(message@),
        Packet::Bundle(members) => PacketView::Bundle(
            Seq::new(
                members@.len(),
                |i: int|
                    if 0 <= i < members@.len() {
                        packet_view(members@[i])
                    } else {
                        arbitrary()
                    },
            ),
        ),
    }
}

impl View for Packet {
    type V = PacketView;

    open spec fn view(&self) -> PacketView {
        packet_view(*self)
    }
}

/// The prediction that a message carries: its first two arguments, read as
/// right and left, where both are single-precision numbers.
pub open spec fn prediction_in(message: MessageView) -> Option<PredictionPair> {
    if message.args.len() >= 2 {
        match (message.args[0], message.args[1]) {
            (Argument::Float(right), Argument::Float(left)) => Some(PredictionPair { right, left }),
            _ => None,
        }
    } else {
        None
    }
}

/// The command that a message asks for, whatever its address.
pub open spec fn imagery_command(message: MessageView) -> Option<DriveCommand> {
    match prediction_in(message) {
        Some(prediction) => Some(arbitration(prediction)),
        None => None,
    }
}

/// The routing filter: the command of a message on the command channel.
pub open spec fn routed_command(message: MessageView) -> Option<DriveCommand> {
    if message.addr == COMMAND_CHANNEL@ {
        imagery_command(message)
    } else {
        None
    }
}

/// The commands that a packet gives rise to, in the order of its messages.
/// A bundle is unwrapped member by member, a bundle inside it likewise.
pub open spec fn packet_commands(packet: PacketView) -> Seq<DriveCommand>
    decreases packet, 1int,
{
    match packet {
        PacketView::Message(message) => match routed_command(message) {
            Some(command) => seq![command],
            None => Seq::empty(),
        },
        PacketView::Bundle(members) => bundle_commands(members, members.len() as int),
    }
}

/// The commands of the first `n` members of a bundle.
pub open spec fn bundle_commands(members: Seq<PacketView>, n: int) -> Seq<DriveCommand>
    decreases members, 0int, n,
{
    if 0 < n <= members.len() {
        bundle_commands(members, n - 1) + packet_commands(members[n - 1])
    } else {
        Seq::empty()
    }
}

/// The view of a bundle holds the views of its members, in their order.
pub proof fn lemma_bundle_view(members: Vec<Packet>)
    ensures
        Packet::Bundle(members)@ is Bundle,
        Packet::Bundle(members)@->Bundle_0.len() == members@.len(),
        forall|j: int|
            0 <= j < members@.len() ==> Packet::Bundle(members)@->Bundle_0[j]
                == (#[trigger] members@[j])@,
{
    reveal_with_fuel(packet_view, 2);
}

/// Reads the prediction that a message carries.
pub fn prediction_of(message: &Message) -> (prediction: Option<PredictionPair>)
    ensures
        prediction == prediction_in(message@),
{
    if message.args.len() >= 2 {
        match (message.args[0], message.args[1]) {
            (Argument::Float(right), Argument::Float(left)) => Some(PredictionPair { right, left }),
            _ => None,
        }
    } else {
        None
    }
}

/// Arbitrates the prediction of a message. A message with fewer than two
/// arguments, or whose first or second argument is no single-precision
/// number, asks for nothing.
pub fn handle_mental_imagery(msg: &Message) -> (command: Option<DriveCommand>)
    ensures
        command == imagery_command(msg@),
{
    match prediction_of(msg) {
        Some(prediction) => Some(arbitrate(prediction)),
        None => None,
    }
}

/// Whether a message is addressed to the command channel.
pub fn on_command_channel(message: &Message) -> (matches: bool)
    ensures
        matches == (message@.addr == COMMAND_CHANNEL@),
{
    let channel = COMMAND_CHANNEL.to_owned();
    message.addr == channel
}

/// The routing filter: the command of a message, if it is on the command
/// channel and carries a prediction.
pub fn route(message: &Message) -> (command: Option<DriveCommand>)
    ensures
        command == routed_command(message@),
{
    if on_command_channel(message) {
        handle_mental_imagery(message)
    } else {
        None
    }
}

/// Collects the commands of a packet, in the order of its messages.
pub fn commands_of(packet: &Packet) -> (commands: Vec<DriveCommand>)
    ensures
        commands@ == packet_commands(packet@),
    decreases packet,
{
    let mut commands: Vec<DriveCommand> = Vec::new();
    match packet {
        Packet::Message(message) => {
            match route(message) {
                Some(command) => {
                    commands.push(command);
                    assert(commands@ =~= seq![command]);
                },
                None => {},
            }
        },
        Packet::Bundle(members) => {
            let ghost views = packet@->Bundle_0;
            proof {
                lemma_bundle_view(*members);
            }
            let mut i: usize = 0;
            while i < members.len()
                invariant
                    i <= members.len(),
                    packet == Packet::Bundle(*members),
                    views == packet@->Bundle_0,
                    views.len() == members@.len(),
                    forall|j: int| 0 <= j < members@.len() ==> views[j] == (#[trigger] members@[j])@,
                    commands@ == bundle_commands(views, i as int),
                decreases members.len() - i,
            {
                let mut inner = commands_of(&members[i]);
                commands.append(&mut inner);
                i = i + 1;
            }
        },
    }
    commands
}

/// A message that is not on the command channel, or has fewer than two
/// arguments, or whose first or second argument is no single-precision
/// number, gives rise to no command.
pub proof fn lemma_unmatched_message_gives_no_command(message: MessageView)
    requires
        message.addr != COMMAND_CHANNEL@ || message.args.len() < 2 || !(message.args[0] is Float)
            || !(message.args[1] is Float),
    ensures
        routed_command(message) is None,
        packet_commands(PacketView::Message(message)) == Seq::<DriveCommand>::empty(),
{
}

/// A message on the command channel whose first two arguments are
/// single-precision numbers gives rise to exactly the command that the
/// arbitration selects for them.
pub proof fn lemma_matched_message_gives_its_command(message: MessageView)
    requires
        message.addr == COMMAND_CHANNEL@,
        message.args.len() >= 2,
        message.args[0] is Float,
        message.args[1] is Float,
    ensures
        packet_commands(PacketView::Message(message)) == seq![
            arbitration(
                PredictionPair { right: message.args[0]->Float_0, left: message.args[1]->Float_0 },
            ),
        ],
{
}

/// The commands of a bundle of two packets are those of the first followed
/// by those of the second. So a bundle of one message that carries a command
/// and one that is unmatched gives exactly that one command, in either order.
pub proof fn lemma_bundle_of_two(first: PacketView, second: PacketView)
    ensures
        packet_commands(PacketView::Bundle(seq![first, second])) == packet_commands(first)
            + packet_commands(second),
{
    let members = seq![first, second];
    reveal_with_fuel(bundle_commands, 3);
    assert(bundle_commands(members, 0) == Seq::<DriveCommand>::empty());
    assert(bundle_commands(members, 1) =~= packet_commands(first));
    assert(bundle_commands(members, 2) =~= packet_commands(first) + packet_commands(second));
}

} // verus!
