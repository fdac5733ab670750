//! The administration endpoint that hands out the certificate of the
//! instance's certificate authority.
use vstd::prelude::*;

verus! {

/// What an administrator may be allowed to do, as far as this endpoint asks.
#[derive(Clone, Copy, Debug, PartialEq, Eq, Structural)]
pub enum AdminPermission {
    ConfigEdit,
}

/// The certificate in PEM form. It is to be put into a Kubernetes API server's
/// client trust bundle before certificates that this instance issues are
/// accepted there.
#[derive(Debug)]
pub struct InstanceCaCertificate {
    pub certificate_pem: String,
}

/// The stored parameters that the endpoint reads.
#[derive(Debug)]
pub struct Parameters {
    pub ca_certificate_pem: String,
}

/// What the endpoint goes on with.
#[derive(Debug)]
pub enum CertificateStep<E> {
    /// Load the parameters and hand them to [`Api::on_parameters`].
    LoadParameters,
    /// The request is answered with this error.
    Refused(E),
}

/// The endpoint.
pub struct Api;

impl Api {
    /// The permission that the endpoint asks for.
    pub fn required_permission() -> (permission: AdminPermission)
        ensures
            permission == AdminPermission::ConfigEdit,
    {
        AdminPermission::ConfigEdit
    }

    /// Begins to answer a request, with what asking for the permission gave.
    /// Nothing is read for a request without it.
    pub fn api_get_certificate<E>(&self, permitted: Result<(), E>) -> (step: CertificateStep<E>)
        ensures
            step == match permitted {
                Ok(_) => CertificateStep::<E>::LoadParameters,
                Err(error) => CertificateStep::Refused(error),
            },
    {
        match permitted {
            Ok(_) => CertificateStep::LoadParameters,
            Err(error) => CertificateStep::Refused(error),
        }
    }

    /// The answer to a permitted request, with what loading the parameters
    /// gave.
    pub fn on_parameters<E>(&self, parameters: Result<Parameters, E>) -> (r: Result<
        InstanceCaCertificate,
        E,
    >)
        ensures
            r == match parameters {
                Ok(parameters) => Ok::<InstanceCaCertificate, E>(
                    InstanceCaCertificate { certificate_pem: parameters.ca_certificate_pem },
                ),
                Err(error) => Err::<InstanceCaCertificate, E>(error),
            },
    {
        match parameters {
            Ok(parameters) => Ok(
                InstanceCaCertificate { certificate_pem: parameters.ca_certificate_pem },
            ),
            Err(error) => Err(error),
        }
    }
}

} // verus!
