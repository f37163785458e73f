//! A compute instance, as far as its reachability goes: its identifier, whether it
//! runs, and its public address.
//!
//! The driver reads the address text with the standard parser and hands over what it
//! read; what that means for the instance is decided here.

use crate::classify::{class_of, classify, FailureView, RemoteFailure};
use crate::error::{message_of, AWSError, CardinalityError, ErrorView};
use crate::helpers::{get_only_item, only_item};
use crate::http::{
    description_of, errors_text, opt_text, HttpDescriptionView, HttpResponseDescription,
};
use crate::text::{push_signed_decimal, signed_decimal};
use vstd::prelude::*;
use vstd::string::*;

verus! {

/// The state code of an instance that runs.
pub const RUNNING: i64 = 16;

/// The state that the remote reports for an instance.
#[derive(Debug, PartialEq, Eq)]
pub struct InstanceState {
    pub code: Option<i64>,
    pub name: Option<String>,
}

/// A public address: the 32 bits of an IPv4 address or the 128 bits of an IPv6 one.
#[derive(Clone, Copy, Debug, PartialEq, Eq, Structural)]
pub enum PublicIp {
    V4(u32),
    V6(u128),
}

/// An instance as the remote describes it.
#[derive(Debug, PartialEq, Eq)]
pub struct Instance {
    pub instance_id: String,
    pub state: Option<InstanceState>,
    /// The address as the remote wrote it, and what it reads as: the address, or the
    /// parser's complaint where the text is no address.
    pub public_ip_address: Option<(String, Result<PublicIp, String>)>,
}

/// A reservation: the instances that were started together.
#[derive(Debug, PartialEq, Eq)]
pub struct Reservation {
    pub instances: Option<Vec<Instance>>,
}

/// A running instance with a public address.
#[derive(Debug, PartialEq, Eq)]
pub struct EC2Instance {
    pub id: String,
    pub name: Option<String>,
    pub ip_addresses: Vec<PublicIp>,
    pub running: bool,
}

/// Why an instance could not be described.
#[derive(Debug, PartialEq, Eq)]
pub enum EC2InstanceError {
    DescribeInstancesPermissionDenied(HttpResponseDescription),
    DescribeInstancesBadRequest(HttpResponseDescription),
    DescribeInstancesUnknownError(AWSError),
    DescribeInstancesReturnedNone,
    DescribeInstancesReturnedTooMany,
    InstanceHasNoPublicIP,
    /// The public address is no IP address; with the parser's complaint.
    InstanceHasMalformedPublicIP(String),
    /// The instance does not run; with its state code and name.
    InstanceHasIncorrectState(String),
}

/// The mathematical value of an [`InstanceState`].
pub struct InstanceStateView {
    pub code: Option<i64>,
    pub name: Option<Seq<char>>,
}

/// The mathematical value of an [`Instance`].
pub struct InstanceView {
    pub instance_id: Seq<char>,
    pub state: Option<InstanceStateView>,
    pub public_ip_address: Option<(Seq<char>, Result<PublicIp, Seq<char>>)>,
}

/// The mathematical value of a [`Reservation`].
pub struct ReservationView {
    pub instances: Option<Seq<InstanceView>>,
}

/// The mathematical value of an [`EC2Instance`].
pub struct EC2InstanceView {
    pub id: Seq<char>,
    pub name: Option<Seq<char>>,
    pub ip_addresses: Seq<PublicIp>,
    pub running: bool,
}

/// The mathematical value of an [`EC2InstanceError`].
pub enum InstanceErrorView {
    DescribeInstancesPermissionDenied(HttpDescriptionView),
    DescribeInstancesBadRequest(HttpDescriptionView),
    DescribeInstancesUnknownError(ErrorView),
    DescribeInstancesReturnedNone,
    DescribeInstancesReturnedTooMany,
    InstanceHasNoPublicIP,
    InstanceHasMalformedPublicIP(Seq<char>),
    InstanceHasIncorrectState(Seq<char>),
}

impl View for InstanceState {
    type V = InstanceStateView;

    open spec fn view(&self) -> InstanceStateView {
        InstanceStateView { code: self.code, name: opt_text(self.name) }
    }
}

impl View for Instance {
    type V = InstanceView;

    open spec fn view(&self) -> InstanceView {
        InstanceView {
            instance_id: self.instance_id@,
            state: match self.state {
                Some(state) => Some(state@),
                None => None,
            },
            public_ip_address: match self.public_ip_address {
                Some((text, Ok(ip))) => Some((text@, Ok(ip))),
                Some((text, Err(complaint))) => Some((text@, Err(complaint@))),
                None => None,
            },
        }
    }
}

impl DeepView for Instance {
    type V = InstanceView;

    open spec fn deep_view(&self) -> InstanceView {
        self@
    }
}

impl View for Reservation {
    type V = ReservationView;

    open spec fn view(&self) -> ReservationView {
        ReservationView { instances: self.instances.deep_view() }
    }
}

impl DeepView for Reservation {
    type V = ReservationView;

    open spec fn deep_view(&self) -> ReservationView {
        self@
    }
}

impl View for EC2Instance {
    type V = EC2InstanceView;

    open spec fn view(&self) -> EC2InstanceView {
        EC2InstanceView {
            id: self.id@,
            name: opt_text(self.name),
            ip_addresses: self.ip_addresses@,
            running: self.running,
        }
    }
}

impl View for EC2InstanceError {
    type V = InstanceErrorView;

    open spec fn view(&self) -> InstanceErrorView {
        match *self {
            EC2InstanceError::DescribeInstancesPermissionDenied(d) =>
                InstanceErrorView::DescribeInstancesPermissionDenied(d@),
            EC2InstanceError::DescribeInstancesBadRequest(d) =>
                InstanceErrorView::DescribeInstancesBadRequest(d@),
            EC2InstanceError::DescribeInstancesUnknownError(e) =>
                InstanceErrorView::DescribeInstancesUnknownError(e@),
            EC2InstanceError::DescribeInstancesReturnedNone =>
                InstanceErrorView::DescribeInstancesReturnedNone,
            EC2InstanceError::DescribeInstancesReturnedTooMany =>
                InstanceErrorView::DescribeInstancesReturnedTooMany,
            EC2InstanceError::InstanceHasNoPublicIP => InstanceErrorView::InstanceHasNoPublicIP,
            EC2InstanceError::InstanceHasMalformedPublicIP(text) =>
                InstanceErrorView::InstanceHasMalformedPublicIP(text@),
            EC2InstanceError::InstanceHasIncorrectState(text) =>
                InstanceErrorView::InstanceHasIncorrectState(text@),
        }
    }
}

/// The views of a described instance.
pub open spec fn instance_result_view(r: Result<EC2Instance, EC2InstanceError>) -> Result<
    EC2InstanceView,
    InstanceErrorView,
> {
    match r {
        Ok(instance) => Ok(instance@),
        Err(e) => Err(e@),
    }
}

/// The cardinality error as an error of the description of instances.
pub open spec fn cardinality_error(e: CardinalityError) -> InstanceErrorView {
    match e {
        CardinalityError::NoneFound => InstanceErrorView::DescribeInstancesReturnedNone,
        CardinalityError::TooMany => InstanceErrorView::DescribeInstancesReturnedTooMany,
    }
}

/// What is reported of a state that is not the running one: the code, zero where it is
/// missing, a dash between spaces, and the name.
pub open spec fn state_text(state: InstanceStateView) -> Seq<char> {
    signed_decimal(
        match state.code {
            Some(code) => code as int,
            None => 0,
        },
    ) + " - "@ + match state.name {
        Some(name) => name,
        None => Seq::empty(),
    }
}

/// The instance that one described instance stands for: it must run and have a public
/// address that reads as one.
///
/// The state is looked at first, then whether there is an address, then whether its
/// text is an address: the first of these that fails names the error.
pub open spec fn instance_of(instance: InstanceView) -> Result<EC2InstanceView, InstanceErrorView> {
    match instance.state {
        None => Err(InstanceErrorView::InstanceHasIncorrectState("unknown"@)),
        Some(state) => if state.code != Some(RUNNING) {
            Err(InstanceErrorView::InstanceHasIncorrectState(state_text(state)))
        } else {
            match instance.public_ip_address {
                None => Err(InstanceErrorView::InstanceHasNoPublicIP),
                Some((_, Err(complaint))) => Err(
                    InstanceErrorView::InstanceHasMalformedPublicIP(complaint),
                ),
                Some((_, Ok(ip))) => Ok(
                    EC2InstanceView {
                        id: instance.instance_id,
                        name: None,
                        ip_addresses: seq![ip],
                        running: true,
                    },
                ),
            }
        },
    }
}

/// The instance that a reservation stands for: the reservation must hold exactly one.
pub open spec fn reservation_instance(reservation: ReservationView) -> Result<
    EC2InstanceView,
    InstanceErrorView,
> {
    match only_item(reservation.instances) {
        Ok(instance) => instance_of(instance),
        Err(e) => Err(cardinality_error(e)),
    }
}

/// The class of a failed description of instances: a rejected request and a refusal keep
/// the description of the response; everything else is unknown, with its class.
pub open spec fn instance_failure(failure: FailureView) -> InstanceErrorView {
    match failure {
        FailureView::Http { status, body } => if status == 400 {
            InstanceErrorView::DescribeInstancesBadRequest(description_of(status, body))
        } else if status == 403 {
            InstanceErrorView::DescribeInstancesPermissionDenied(description_of(status, body))
        } else {
            InstanceErrorView::DescribeInstancesUnknownError(class_of(failure))
        },
        _ => InstanceErrorView::DescribeInstancesUnknownError(class_of(failure)),
    }
}

/// The instance that the answer to a query for one instance stands for: the answer
/// must hold exactly one reservation.
pub open spec fn queried_instance(
    answer: Result<Option<Seq<ReservationView>>, FailureView>,
) -> Result<EC2InstanceView, InstanceErrorView> {
    match answer {
        Err(failure) => Err(instance_failure(failure)),
        Ok(reservations) => match only_item(reservations) {
            Ok(reservation) => reservation_instance(reservation),
            Err(e) => Err(cardinality_error(e)),
        },
    }
}

/// The views of the answer to a query.
pub open spec fn query_view(answer: Result<Option<Vec<Reservation>>, RemoteFailure>) -> Result<
    Option<Seq<ReservationView>>,
    FailureView,
> {
    match answer {
        Ok(reservations) => Ok(reservations.deep_view()),
        Err(failure) => Err(failure@),
    }
}

/// The text shown for each error.
pub open spec fn instance_message(e: InstanceErrorView) -> Seq<char> {
    "Failed to get instance information: "@ + match e {
        InstanceErrorView::DescribeInstancesPermissionDenied(d)
        | InstanceErrorView::DescribeInstancesBadRequest(d) => "Request failed."@ + errors_text(
            d.errors,
        ),
        InstanceErrorView::DescribeInstancesUnknownError(cause) =>
            "Unknown error occurred. Cause: "@ + message_of(cause),
        InstanceErrorView::DescribeInstancesReturnedNone => "no instances returned"@,
        InstanceErrorView::DescribeInstancesReturnedTooMany => "too many instances returned"@,
        InstanceErrorView::InstanceHasNoPublicIP => "Instance has no public IP"@,
        InstanceErrorView::InstanceHasMalformedPublicIP(text) => "Public IP is malformed: "@
            + text,
        InstanceErrorView::InstanceHasIncorrectState(text) => "Incorrect state: "@ + text,
    }
}

/// Reports a state that is not the running one.
fn describe_state(state: &InstanceState) -> (text: String)
    ensures
        text@ == state_text(state@),
{
    let mut text = String::new();
    let code = match state.code {
        Some(code) => code,
        None => 0,
    };
    push_signed_decimal(&mut text, code);
    text.append(" - ");
    match &state.name {
        Some(name) => {
            text.append(name.as_str());
        },
        None => {},
    }
    assert(text@ =~= state_text(state@));
    text
}

/// Turns a cardinality error into an error of the description of instances.
fn from_cardinality(e: CardinalityError) -> (r: EC2InstanceError)
    ensures
        r@ == cardinality_error(e),
{
    match e {
        CardinalityError::NoneFound => EC2InstanceError::DescribeInstancesReturnedNone,
        CardinalityError::TooMany => EC2InstanceError::DescribeInstancesReturnedTooMany,
    }
}

impl EC2Instance {
    /// Reads one described instance.
    pub fn from_instance(instance: &Instance) -> (r: Result<EC2Instance, EC2InstanceError>)
        ensures
            instance_result_view(r) == instance_of(instance@),
    {
        let running = match &instance.state {
            None => {
                return Err(EC2InstanceError::InstanceHasIncorrectState("unknown".to_owned()));
            },
            Some(state) => {
                let runs = match state.code {
                    Some(code) => code == RUNNING,
                    None => false,
                };
                if !runs {
                    return Err(EC2InstanceError::InstanceHasIncorrectState(describe_state(state)));
                }
                true
            },
        };
        match &instance.public_ip_address {
            None => Err(EC2InstanceError::InstanceHasNoPublicIP),
            Some((_, Err(complaint))) => Err(
                EC2InstanceError::InstanceHasMalformedPublicIP(complaint.clone()),
            ),
            Some((_, Ok(ip))) => {
                let mut ip_addresses: Vec<PublicIp> = Vec::new();
                ip_addresses.push(*ip);
                assert(ip_addresses@ =~= seq![*ip]);
                Ok(
                    EC2Instance {
                        id: instance.instance_id.clone(),
                        name: None,
                        ip_addresses,
                        running,
                    },
                )
            },
        }
    }

    /// Reads the one instance of a reservation.
    pub fn from_reservation(reservation: &Reservation) -> (r: Result<EC2Instance, EC2InstanceError>)
        ensures
            instance_result_view(r) == reservation_instance(reservation@),
    {
        match get_only_item(&reservation.instances) {
            Ok(instance) => {
                assert(reservation.instances->0.deep_view()[0] == reservation.instances->0[0]@);
                EC2Instance::from_instance(instance)
            },
            Err(e) => Err(from_cardinality(e)),
        }
    }

    /// Reads the answer to a query for one instance.
    pub fn from_query(answer: Result<Option<Vec<Reservation>>, RemoteFailure>) -> (r: Result<
        EC2Instance,
        EC2InstanceError,
    >)
        ensures
            instance_result_view(r) == queried_instance(query_view(answer)),
    {
        match answer {
            Err(failure) => Err(EC2InstanceError::from_failure(failure)),
            Ok(reservations) => match get_only_item(&reservations) {
                Ok(reservation) => {
                    assert(reservations->0.deep_view()[0] == reservations->0[0]@);
                    EC2Instance::from_reservation(reservation)
                },
                Err(e) => Err(from_cardinality(e)),
            },
        }
    }
}

impl EC2InstanceError {
    /// Classifies a failed description of instances.
    pub fn from_failure(failure: RemoteFailure) -> (e: EC2InstanceError)
        ensures
            e@ == instance_failure(failure@),
    {
        match failure {
            RemoteFailure::Http { status, body } => {
                if status == 400 {
                    EC2InstanceError::DescribeInstancesBadRequest(
                        HttpResponseDescription::from_response(status, body),
                    )
                } else if status == 403 {
                    EC2InstanceError::DescribeInstancesPermissionDenied(
                        HttpResponseDescription::from_response(status, body),
                    )
                } else {
                    EC2InstanceError::DescribeInstancesUnknownError(
                        classify(RemoteFailure::Http { status, body }),
                    )
                }
            },
            other => EC2InstanceError::DescribeInstancesUnknownError(classify(other)),
        }
    }

    /// The text shown for the error.
    pub fn message(&self) -> (text: String)
        ensures
            text@ == instance_message(self@),
    {
        let mut text = "Failed to get instance information: ".to_owned();
        match self {
            EC2InstanceError::DescribeInstancesPermissionDenied(d)
            | EC2InstanceError::DescribeInstancesBadRequest(d) => {
                let detail = d.message();
                text.append(detail.as_str());
            },
            EC2InstanceError::DescribeInstancesUnknownError(cause) => {
                text.append("Unknown error occurred. Cause: ");
                let detail = cause.message();
                text.append(detail.as_str());
                assert(text@ =~= instance_message(self@));
            },
            EC2InstanceError::DescribeInstancesReturnedNone => {
                text.append("no instances returned");
            },
            EC2InstanceError::DescribeInstancesReturnedTooMany => {
                text.append("too many instances returned");
            },
            EC2InstanceError::InstanceHasNoPublicIP => {
                text.append("Instance has no public IP");
            },
            EC2InstanceError::InstanceHasMalformedPublicIP(detail) => {
                text.append("Public IP is malformed: ");
                text.append(detail.as_str());
                assert(text@ =~= instance_message(self@));
            },
            EC2InstanceError::InstanceHasIncorrectState(detail) => {
                text.append("Incorrect state: ");
                text.append(detail.as_str());
                assert(text@ =~= instance_message(self@));
            },
        }
        text
    }
}

} // verus!
