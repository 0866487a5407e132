//! Decoding of inbound datagrams. The wire format is decoded by the `rosc`
//! crate; this module states what is taken on trust of it and turns its
//! packets into the packets of this library.

use vstd::prelude::*;
use crate::drive::DriveCommand;
use crate::osc::{commands_of, lemma_bundle_view, packet_commands};
use crate::osc::{Argument, Message, MessageView, Packet, PacketView};

verus! {

/// Largest datagram that is decoded: the size of the receive buffer, which
/// is the decoder's `MTU`.
pub const MAX_DATAGRAM: usize = 1536;

/// `rosc::OscPacket`, a decoded packet. Nothing of its inside is visible to
/// the verifier.
#[verifier::external_type_specification]
#[verifier::external_body]
pub struct ExOscPacket(rosc::OscPacket);

/// `rosc::OscType`, one decoded argument.
#[verifier::external_type_specification]
#[verifier::external_body]
pub struct ExOscType(rosc::OscType);

/// `rosc::OscError`, the error of the decoder.
#[verifier::external_type_specification]
#[verifier::external_body]
pub struct ExOscError(rosc::OscError);

/// What `rosc::decoder::decode_udp` makes of a datagram: the packet it
/// returns, or `None` where it returns an error.
pub uninterp spec fn osc_decoding(datagram: Seq<u8>) -> Option<PacketView>;

/// What a packet of `rosc` holds: a message with its address and its
/// arguments, or a bundle with what its members hold. The time tag of a
/// bundle is left out.
pub uninterp spec fn packet_content(packet: rosc::OscPacket) -> PacketView;

/// What an argument of `rosc` holds, as far as the routing reads it.
pub uninterp spec fn argument_content(argument: rosc::OscType) -> Argument;

/// What a list of arguments holds.
pub open spec fn arguments_content(arguments: Seq<rosc::OscType>) -> Seq<Argument> {
    Seq::new(arguments.len(), |i: int| argument_content(arguments[i]))
}

/// What a list of packets holds.
pub open spec fn members_content(members: Seq<rosc::OscPacket>) -> Seq<PacketView> {
    Seq::new(members.len(), |i: int| packet_content(members[i]))
}

/// The two shapes of a packet of `rosc`, by reference to its fields.
enum PacketParts<'a> {
    Message(&'a String, &'a Vec<rosc::OscType>),
    Bundle(&'a Vec<rosc::OscPacket>),
}

/// A decode failure, with the decoder's description of it.
#[derive(Debug)]
pub struct DecodeFault {
    pub reason: String,
}

/// Calls `rosc::decoder::decode_udp` and drops the bytes it leaves over.
/// Trusted: that the outcome is a function of the bytes alone. The decoder
/// descends into nested bundles by recursion; a datagram that fits the
/// receive buffer keeps that descent short.
#[verifier::external_body]
fn decode_udp(datagram: &[u8]) -> (decoded: Result<rosc::OscPacket, rosc::OscError>)
    requires
        datagram@.len() <= MAX_DATAGRAM,
    ensures
        match decoded {
            Ok(packet) => osc_decoding(datagram@) == Some(packet_content(packet)),
            Err(_) => osc_decoding(datagram@) is None,
        },
{
    match rosc::decoder::decode_udp(datagram) {
        Ok((_, packet)) => Ok(packet),
        Err(error) => Err(error),
    }
}

/// Tells the two variants of `rosc::OscPacket` apart and hands out their
/// fields. Trusted: that a message holds its address and its arguments, and a
/// bundle its members in their order.
#[verifier::external_body]
fn open_packet<'a>(packet: &'a rosc::OscPacket) -> (parts: PacketParts<'a>)
    ensures
        match parts {
            PacketParts::Message(addr, args) => packet_content(*packet) == PacketView::Message(
                MessageView { addr: addr@, args: arguments_content(args@) },
            ),
            PacketParts::Bundle(members) => packet_content(*packet) == PacketView::Bundle(
                members_content(members@),
            ),
        },
{
    match packet {
        rosc::OscPacket::Message(message) => PacketParts::Message(&message.addr, &message.args),
        rosc::OscPacket::Bundle(bundle) => PacketParts::Bundle(&bundle.content),
    }
}

/// Reads one argument of `rosc`: the `Float` variant gives the bit pattern of
/// its number as `to_bits` returns it, every other variant gives `Other`.
/// Trusted: that the outcome is a function of the argument alone.
#[verifier::external_body]
fn lift_argument(argument: &rosc::OscType) -> (lifted: Argument)
    ensures
        lifted == argument_content(*argument),
{
    match argument {
        rosc::OscType::Float(number) => Argument::Float(number.to_bits()),
        _ => Argument::Other,
    }
}

/// The `Debug` text of a decoder error. Nothing is claimed of it.
#[verifier::external_body]
fn describe(error: &rosc::OscError) -> String {
    format!("{:?}", error)
}

fn lift_arguments(arguments: &Vec<rosc::OscType>) -> (lifted: Vec<Argument>)
    ensures
        lifted@ == arguments_content(arguments@),
{
    let mut lifted: Vec<Argument> = Vec::new();
    let mut i: usize = 0;
    while i < arguments.len()
        invariant
            i <= arguments.len(),
            lifted@.len() == i,
            forall|j: int| 0 <= j < i ==> lifted@[j] == argument_content(#[trigger] arguments@[j]),
        decreases arguments.len() - i,
    {
        lifted.push(lift_argument(&arguments[i]));
        i = i + 1;
    }
    assert(lifted@ =~= arguments_content(arguments@));
    lifted
}

fn lift_packet(packet: &rosc::OscPacket) -> (lifted: Packet)
    ensures
        lifted@ == packet_content(*packet),
    decreases packet_content(*packet),
{
    match open_packet(packet) {
        PacketParts::Message(addr, args) => {
            let message = Message { addr: addr.clone(), args: lift_arguments(args) };
            Packet::Message(message)
        },
        PacketParts::Bundle(members) => {
            let ghost content = members_content(members@);
            let mut lifted: Vec<Packet> = Vec::new();
            let mut i: usize = 0;
            while i < members.len()
                invariant
                    i <= members.len(),
                    content == members_content(members@),
                    packet_content(*packet) == PacketView::Bundle(content),
                    lifted@.len() == i,
                    forall|j: int| 0 <= j < i ==> (#[trigger] lifted@[j])@ == content[j],
                decreases members.len() - i,
            {
                proof {
                    let whole = packet_content(*packet);
                    assert(content[i as int] == packet_content(members@[i as int]));
                    assert(whole->Bundle_0 == content);
                    assert(decreases_to!(whole => whole->Bundle_0));
                    assert(decreases_to!(whole->Bundle_0 => whole->Bundle_0[i as int]));
                }
                let member = lift_packet(&members[i]);
                lifted.push(member);
                i = i + 1;
            }
            proof {
                lemma_bundle_view(lifted);
                assert(Packet::Bundle(lifted)@->Bundle_0 =~= content);
            }
            Packet::Bundle(lifted)
        },
    }
}

/// Decodes a datagram.
pub fn decode(datagram: &[u8]) -> (result: Result<Packet, DecodeFault>)
    requires
        datagram@.len() <= MAX_DATAGRAM,
    ensures
        match osc_decoding(datagram@) {
            Some(content) => result matches Ok(packet) && packet@ == content,
            None => result is Err,
        },
{
    match decode_udp(datagram) {
        Ok(packet) => Ok(lift_packet(&packet)),
        Err(error) => Err(DecodeFault { reason: describe(&error) }),
    }
}

/// Decodes a datagram and collects the commands of its messages, in their
/// order.
pub fn commands_in_datagram(datagram: &[u8]) -> (result: Result<Vec<DriveCommand>, DecodeFault>)
    requires
        datagram@.len() <= MAX_DATAGRAM,
    ensures
        match osc_decoding(datagram@) {
            Some(content) => result matches Ok(commands) && commands@ == packet_commands(content),
            None => result is Err,
        },
{
    match decode(datagram) {
        Ok(packet) => Ok(commands_of(&packet)),
        Err(fault) => Err(fault),
    }
}

} // verus!
