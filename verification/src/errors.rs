//! Errors surfaced by binding resolution, configuration, and the
//! per-service generation pass. Every error aborts the generation run;
//! a method without an HTTP binding is not an error.

use vstd::prelude::*;

verus! {

/// A generation-time failure, carrying the names needed to report it.
#[derive(Debug)]
pub enum GenError {
    /// A path template placeholder names a field absent from the input
    /// message.
    PathFieldNotFound(String),
    /// A body specification names a field absent from the input
    /// message.
    BodyFieldNotFound(String),
    /// A method's declared input type has no message in the emitted
    /// source; the fields are the input type, the service and the
    /// method.
    MessageNotFound(String, String, String),
    /// A client-streaming method cannot take path or query extractors;
    /// the field is the method name.
    ClientStreamingExtractors(String),
    /// A client-streaming method cannot use the default trait-object
    /// state type; the field is the service name.
    ClientStreamingTraitObject(String),
    /// A generic state type cannot be combined with OpenAPI
    /// generation; the field is the service name.
    GenericStateOpenApi(String),
    /// A configuration value that must not be empty was empty; the
    /// field names the setting.
    EmptyConfigValue(String),
}

impl GenError {
    /// The message text for this error.
    pub fn to_text(&self) -> (r: String)
        ensures
            r@ == self.spec_text(),
    {
        let mut s = String::new();
        match self {
            GenError::PathFieldNotFound(name) => {
                s.append("Path field not found: ");
                s.append(name.as_str());
            },
            GenError::BodyFieldNotFound(name) => {
                s.append("Field not found: ");
                s.append(name.as_str());
            },
            GenError::MessageNotFound(input_type, service, method) => {
                s.append("Prost generated message not found: ");
                s.append(input_type.as_str());
                s.append(" for service: ");
                s.append(service.as_str());
                s.append(" method: ");
                s.append(method.as_str());
            },
            GenError::ClientStreamingExtractors(method) => {
                s.append(
                    "Client streaming methods are not supported with query or path parameters: (Method: ",
                );
                s.append(method.as_str());
                s.append(")");
            },
            GenError::ClientStreamingTraitObject(service) => {
                s.append(
                    "Client streaming methods are not supported when the state type is a trait object: (Service: ",
                );
                s.append(service.as_str());
                s.append(")");
            },
            GenError::GenericStateOpenApi(service) => {
                s.append(
                    "A generic service state type is not supported when generating OpenAPI documentation: (Service: ",
                );
                s.append(service.as_str());
                s.append(")");
            },
            GenError::EmptyConfigValue(setting) => {
                s.append(setting.as_str());
                s.append(" must not be empty");
            },
        }
        s
    }

    /// The message text, stated at the specification level.
    pub open spec fn spec_text(&self) -> Seq<char> {
        match self {
            GenError::PathFieldNotFound(name) => "Path field not found: "@ + name@,
            GenError::BodyFieldNotFound(name) => "Field not found: "@ + name@,
            GenError::MessageNotFound(input_type, service, method) =>
                "Prost generated message not found: "@ + input_type@ + " for service: "@ + service@
                    + " method: "@ + method@,
            GenError::ClientStreamingExtractors(method) =>
                "Client streaming methods are not supported with query or path parameters: (Method: "@
                    + method@ + ")"@,
            GenError::ClientStreamingTraitObject(service) =>
                "Client streaming methods are not supported when the state type is a trait object: (Service: "@
                    + service@ + ")"@,
            GenError::GenericStateOpenApi(service) =>
                "A generic service state type is not supported when generating OpenAPI documentation: (Service: "@
                    + service@ + ")"@,
            GenError::EmptyConfigValue(setting) => setting@ + " must not be empty"@,
        }
    }
}

} // verus!
