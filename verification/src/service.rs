//! The address at which a network's service can be reached from outside the
//! cluster, from the fields of the service that it reads.
use vstd::prelude::*;
use crate::name_map::str_equal;
use crate::text::{decimal, push_char, push_decimal, push_str};

verus! {

/// A port of a service.
pub struct ServicePort {
    pub port: i32,
    pub node_port: Option<i32>,
}

/// The specification of a service.
pub struct ServiceSpec {
    pub external_ips: Option<Vec<String>>,
    pub type_: Option<String>,
    pub ports: Option<Vec<ServicePort>>,
}

/// A cluster service.
pub struct Service {
    pub spec: Option<ServiceSpec>,
}

/// Why a service gives no address.
#[derive(Debug)]
pub enum ServiceAddressError {
    MissingSpec,
    MissingPorts,
    MissingNodePort,
    MissingType,
    UnsupportedType(String),
}

/// The decimal text of an integer, with a leading `-` when negative.
pub open spec fn int_text(v: int) -> Seq<char> {
    if v < 0 {
        seq!['-'] + decimal((-v) as nat)
    } else {
        decimal(v as nat)
    }
}

/// The first port of a service.
pub fn get_first_port(spec: &ServiceSpec) -> (r: Result<i32, ServiceAddressError>)
    ensures
        match spec.ports {
            Some(p) => if p@.len() > 0 {
                r matches Ok(v) && v == p@[0].port
            } else {
                r matches Err(ServiceAddressError::MissingPorts)
            },
            None => r matches Err(ServiceAddressError::MissingPorts),
        },
{
    match &spec.ports {
        Some(p) => {
            if p.len() > 0 {
                Ok(p[0].port)
            } else {
                Err(ServiceAddressError::MissingPorts)
            }
        },
        None => Err(ServiceAddressError::MissingPorts),
    }
}

/// The node port of the first port of a service.
pub fn get_first_node_port(spec: &ServiceSpec) -> (r: Result<i32, ServiceAddressError>)
    ensures
        match spec.ports {
            Some(p) => if p@.len() > 0 {
                match p@[0].node_port {
                    Some(n) => r matches Ok(v) && v == n,
                    None => r matches Err(ServiceAddressError::MissingNodePort),
                }
            } else {
                r matches Err(ServiceAddressError::MissingPorts)
            },
            None => r matches Err(ServiceAddressError::MissingPorts),
        },
{
    match &spec.ports {
        Some(p) => {
            if p.len() > 0 {
                match p[0].node_port {
                    Some(n) => Ok(n),
                    None => Err(ServiceAddressError::MissingNodePort),
                }
            } else {
                Err(ServiceAddressError::MissingPorts)
            }
        },
        None => Err(ServiceAddressError::MissingPorts),
    }
}

/// Appends the decimal text of `v`.
fn push_int(s: &mut String, v: i32)
    ensures
        final(s)@ == old(s)@ + int_text(v as int),
{
    if v < 0 {
        push_char(s, '-');
        let m: i64 = -(v as i64);
        push_decimal(s, m as u64);
        assert(old(s)@ + int_text(v as int) =~= s@);
    } else {
        push_decimal(s, v as u64);
    }
}

/// The first external address of a service's specification, if any.
pub open spec fn first_external_ip(spec: ServiceSpec) -> Option<Seq<char>> {
    match spec.external_ips {
        Some(v) => if v@.len() > 0 {
            Some(v@[0]@)
        } else {
            None
        },
        None => None,
    }
}

/// Whether the service falls to one of the kinds whose address is not
/// worked out yet: a node port or load balancer service without an
/// external address.
pub open spec fn address_not_worked_out(service: Service) -> bool {
    match service.spec {
        Some(spec) => first_external_ip(spec) is None && match spec.type_ {
            Some(t) => t@ == "NodePort"@ || t@ == "LoadBalancer"@,
            None => false,
        },
        None => false,
    }
}

/// The address of a service: its first external address and its first
/// port. Without an external address the service's type decides, and no
/// type other than node port and load balancer is supported.
pub fn get_service_accessible_address(service: &Service) -> (r: Result<String, ServiceAddressError>)
    requires
        !address_not_worked_out(*service),
    ensures
        match service.spec {
            None => r matches Err(ServiceAddressError::MissingSpec),
            Some(spec) => match first_external_ip(spec) {
                Some(ip) => match spec.ports {
                    Some(p) => if p@.len() > 0 {
                        r matches Ok(a) && a@ == ip + seq![':'] + int_text(p@[0].port as int)
                    } else {
                        r matches Err(ServiceAddressError::MissingPorts)
                    },
                    None => r matches Err(ServiceAddressError::MissingPorts),
                },
                None => match spec.type_ {
                    None => r matches Err(ServiceAddressError::MissingType),
                    Some(t) => r matches Err(ServiceAddressError::UnsupportedType(k)) && k@ == t@,
                },
            },
        },
{
    let spec = match &service.spec {
        Some(s) => s,
        None => {
            return Err(ServiceAddressError::MissingSpec);
        },
    };
    let external_ip = match &spec.external_ips {
        Some(v) => {
            if v.len() > 0 {
                Some(&v[0])
            } else {
                None
            }
        },
        None => None,
    };
    match external_ip {
        Some(ip) => {
            let port = match get_first_port(spec) {
                Ok(p) => p,
                Err(e) => {
                    return Err(e);
                },
            };
            let mut a = ip.clone();
            push_char(&mut a, ':');
            push_int(&mut a, port);
            Ok(a)
        },
        None => match &spec.type_ {
            None => Err(ServiceAddressError::MissingType),
            Some(t) => {
                let is_node_port = str_equal(t.as_str(), "NodePort");
                let is_load_balancer = str_equal(t.as_str(), "LoadBalancer");
                assert(!is_node_port && !is_load_balancer);
                Err(ServiceAddressError::UnsupportedType(t.clone()))
            },
        },
    }
}

} // verus!
