//! Network setup: the private veth link, the route to the outside, and the
//! reading of the host's default route.

use crate::command::{Output, OutputModel};
use crate::effect::{Rule, Step};
use crate::error::{judge, judged, Error, ErrorModel, Shape};
use crate::fixed::HOST_LINK;
use crate::text::{fields, first_index, lemma_first_index_is, same, split};
use vstd::prelude::*;
use vstd::utf8::{decode_utf8, valid_utf8};

verus! {

/// The interface that a route listing names for the default route. The
/// listing is cut into fields at single spaces; the first field has to be
/// `default`, and the interface is the field after the first field `dev`.
pub open spec fn iface_in(text: Seq<char>) -> Result<Seq<char>, Shape> {
    let parts = fields(text, ' ');
    let dev = first_index(parts, "dev"@);
    if parts[0] != "default"@ {
        Err(Shape::NoDefault)
    } else if dev + 1 < parts.len() {
        Ok(parts[dev + 1])
    } else {
        Err(Shape::NoDevice)
    }
}

/// What `parse_iface_name` makes of the bytes of a route listing.
pub open spec fn parsed_iface_name(stdout: Seq<u8>) -> Result<Seq<char>, ErrorModel> {
    if !valid_utf8(stdout) {
        Err(ErrorModel::Parse(Shape::NotUtf8))
    } else {
        match iface_in(decode_utf8(stdout)) {
            Ok(name) => Ok(name),
            Err(shape) => Err(ErrorModel::Parse(shape)),
        }
    }
}

/// The views of both sides of a result that holds a string.
pub open spec fn name_view(r: Result<String, Error>) -> Result<Seq<char>, ErrorModel> {
    match r {
        Ok(s) => Ok(s@),
        Err(e) => Err(e@),
    }
}

/// The error of `String::from_utf8`; nothing is read of it.
#[verifier::external_type_specification]
#[verifier::external_body]
pub struct ExFromUtf8Error(std::string::FromUtf8Error);

/// `String::from_utf8` of the standard library hands the bytes back as text
/// exactly when they are well-formed UTF-8, and the text then is the
/// decoding of the bytes.
pub assume_specification[ String::from_utf8 ](vec: Vec<u8>) -> (r: Result<
    String,
    std::string::FromUtf8Error,
>)
    ensures
        r is Ok <==> valid_utf8(vec@),
        r matches Ok(s) ==> s@ == decode_utf8(vec@),
;

/// Reads the name of the default interface out of the output of the route
/// query.
pub fn parse_iface_name(ip_route_default_stdout: Vec<u8>) -> (r: Result<String, Error>)
    ensures
        name_view(r) == parsed_iface_name(ip_route_default_stdout@),
{
    let text = match String::from_utf8(ip_route_default_stdout) {
        Ok(t) => t,
        Err(_) => {
            return Err(Error::Parse(Shape::NotUtf8));
        },
    };
    let parts = split(text.as_str(), ' ');
    proof {
        crate::text::lemma_fields_nonempty(text@, ' ');
    }
    assert(parts@[0]@ == parts.deep_view()[0]);
    if !same(parts[0].as_str(), "default") {
        return Err(Error::Parse(Shape::NoDefault));
    }
    let mut i: usize = 0;
    while i < parts.len()
        invariant
            0 <= i <= parts.len(),
            forall|j: int| 0 <= j < i ==> parts.deep_view()[j] != "dev"@,
        ensures
            0 <= i <= parts.len(),
            forall|j: int| 0 <= j < i ==> parts.deep_view()[j] != "dev"@,
            i < parts.len() ==> parts.deep_view()[i as int] == "dev"@,
        decreases parts.len() - i,
    {
        assert(parts@[i as int]@ == parts.deep_view()[i as int]);
        if same(parts[i].as_str(), "dev") {
            break;
        }
        i += 1;
    }
    proof {
        lemma_first_index_is(parts.deep_view(), "dev"@, i as int);
    }
    if i < parts.len() && i + 1 < parts.len() {
        assert(parts@[i + 1]@ == parts.deep_view()[i + 1]);
        Ok(parts[i + 1].clone())
    } else {
        Err(Error::Parse(Shape::NoDevice))
    }
}

/// What `default_route_iface_name` makes of the finished route query.
pub open spec fn host_iface(output: OutputModel) -> Result<Seq<char>, ErrorModel> {
    match judged("ip"@, output) {
        Ok(o) => parsed_iface_name(o.stdout),
        Err(e) => Err(e),
    }
}

/// The name of the host's default interface, from the finished route query
/// on the host. A query that did not end successfully is an
/// `ExecutionFailed`; a listing of unexpected shape is a `Parse` error.
pub fn default_route_iface_name(output: Output) -> (r: Result<String, Error>)
    ensures
        name_view(r) == host_iface(output@),
{
    match judge("ip", output) {
        Ok(o) => parse_iface_name(o.stdout),
        Err(e) => Err(e),
    }
}

/// What `container_has_default_route` makes of the finished route query.
pub open spec fn container_route(output: OutputModel) -> Result<bool, ErrorModel> {
    match judged("ip"@, output) {
        Ok(o) => Ok(o.stdout.len() > 0),
        Err(e) => Err(e),
    }
}

/// The model of a result that holds a flag.
pub open spec fn flag_view(r: Result<bool, Error>) -> Result<bool, ErrorModel> {
    match r {
        Ok(b) => Ok(b),
        Err(e) => Err(e@),
    }
}

/// Whether the container has a default route, from the finished route query
/// inside the network namespace: it has one exactly when the query printed
/// anything.
pub fn container_has_default_route(output: Output) -> (r: Result<bool, Error>)
    ensures
        flag_view(r) == container_route(output@),
{
    match judge("ip", output) {
        Ok(o) => Ok(o.stdout.len() > 0),
        Err(e) => Err(e),
    }
}

/// Whether the host has the host end of the veth pair.
pub open spec fn has_host_link(interfaces: Seq<Seq<char>>) -> bool {
    interfaces.contains(HOST_LINK@)
}

/// Whether one of the interface names is that of the host end.
pub fn host_link_exists(interfaces: &Vec<String>) -> (r: bool)
    ensures
        r == has_host_link(interfaces.deep_view()),
{
    let mut i: usize = 0;
    while i < interfaces.len()
        invariant
            0 <= i <= interfaces.len(),
            forall|j: int| 0 <= j < i ==> interfaces.deep_view()[j] != HOST_LINK@,
        decreases interfaces.len() - i,
    {
        assert(interfaces@[i as int]@ == interfaces.deep_view()[i as int]);
        if same(interfaces[i].as_str(), HOST_LINK) {
            return true;
        }
        i += 1;
    }
    false
}

/// The steps of `setup_private_networking`.
pub open spec fn private_networking(interfaces: Seq<Seq<char>>) -> Seq<Step> {
    if has_host_link(interfaces) {
        seq![]
    } else {
        seq![
            Step::CreateLinkPair,
            Step::AssignHostAddress,
            Step::RaiseHostLink,
            Step::AssignContainerAddress,
            Step::RaiseContainerLink,
        ]
    }
}

/// The steps that set up the private link, given the interfaces the host
/// has: none if the host end exists already; else the pair is created with
/// one end in the network namespace, both ends get their addresses and are
/// brought up.
pub fn setup_private_networking(interfaces: &Vec<String>) -> (r: Vec<Step>)
    ensures
        r@ == private_networking(interfaces.deep_view()),
        has_host_link(interfaces.deep_view()) ==> r@.len() == 0,
{
    if host_link_exists(interfaces) {
        Vec::new()
    } else {
        vec![
            Step::CreateLinkPair,
            Step::AssignHostAddress,
            Step::RaiseHostLink,
            Step::AssignContainerAddress,
            Step::RaiseContainerLink,
        ]
    }
}

/// The steps of `setup_external_forward`.
pub open spec fn external_forward() -> Seq<Step> {
    seq![
        Step::AddRule(Rule::Masquerade),
        Step::AddRule(Rule::ForwardIn),
        Step::AddRule(Rule::ForwardOut),
        Step::AddDefaultRoute,
    ]
}

/// The steps that connect the container to the outside: the three firewall
/// rules are appended, whether or not they exist already, and the container
/// gets its default route through the host end.
pub fn setup_external_forward() -> (r: Vec<Step>)
    ensures
        r@ == external_forward(),
{
    vec![
        Step::AddRule(Rule::Masquerade),
        Step::AddRule(Rule::ForwardIn),
        Step::AddRule(Rule::ForwardOut),
        Step::AddDefaultRoute,
    ]
}

/// What `setup_external_networking` decides.
pub open spec fn external_networking(output: OutputModel) -> Result<Option<Step>, ErrorModel> {
    match container_route(output) {
        Ok(true) => Ok(None),
        Ok(false) => Ok(Some(Step::QueryHostRoute)),
        Err(e) => Err(e),
    }
}

/// The model of a result that holds an optional step.
pub open spec fn step_view(r: Result<Option<Step>, Error>) -> Result<Option<Step>, ErrorModel> {
    match r {
        Ok(s) => Ok(s),
        Err(e) => Err(e@),
    }
}

/// Decides from the route query inside the container whether the outside
/// connection has to be set up: where the container has a default route
/// there is nothing to do; else the host's default interface is asked for
/// next.
pub fn setup_external_networking(output: Output) -> (r: Result<Option<Step>, Error>)
    ensures
        step_view(r) == external_networking(output@),
{
    match container_has_default_route(output) {
        Ok(true) => Ok(None),
        Ok(false) => Ok(Some(Step::QueryHostRoute)),
        Err(e) => Err(e),
    }
}

/// A route listing that does not begin with `default` names no interface.
pub proof fn law_listing_must_begin_with_default(text: Seq<char>)
    requires
        !"default"@.is_prefix_of(text),
    ensures
        iface_in(text) == Err::<Seq<char>, Shape>(Shape::NoDefault),
{
    crate::text::lemma_first_field(text, ' ');
}

/// A route listing without a field `dev` names no interface.
pub proof fn law_listing_must_hold_dev(text: Seq<char>)
    requires
        !fields(text, ' ').contains("dev"@),
    ensures
        iface_in(text) is Err,
{
    let parts = fields(text, ' ');
    crate::text::lemma_first_where(parts, |y: Seq<char>| y == "dev"@);
    let dev = first_index(parts, "dev"@);
    if dev < parts.len() {
        assert(parts[dev] == "dev"@);
    }
}

} // verus!
