//! What a client is configured with from outside.

use vstd::prelude::*;

verus! {

/// Configures the client externally.
#[derive(Debug, Clone, PartialEq, Eq)]
pub struct ClientCfg {
    /// The endpoint to connect to.
    pub url: String,
}

/// A text format of the codec.
#[derive(Clone, Copy, PartialEq, Eq, Structural, Debug)]
pub enum Format {
    Json,
    Ron,
}

/// The formats in force: the one that typed requests are read in, and the
/// one that frames on the transport are written and read in.
#[derive(Clone, Copy, PartialEq, Eq, Structural, Debug)]
pub struct Formats {
    pub input: Format,
    pub wire: Format,
}

/// Which formats were switched on, per direction.
#[derive(Clone, Copy, PartialEq, Eq, Structural, Debug)]
pub struct FormatFlags {
    pub in_json: bool,
    pub in_ron: bool,
    pub out_json: bool,
    pub out_ron: bool,
}

/// Why a choice of formats was refused.
#[derive(Clone, Copy, PartialEq, Eq, Structural, Debug)]
pub enum ConfigError {
    /// No format for typed requests.
    NoInputFormat,
    /// More than one format for typed requests.
    AmbiguousInputFormat,
    /// No format for the transport.
    NoWireFormat,
    /// More than one format for the transport.
    AmbiguousWireFormat,
}

/// The format that a pair of switches selects, if it selects exactly one.
pub open spec fn chosen(json: bool, ron: bool) -> Option<Format> {
    if json && !ron {
        Some(Format::Json)
    } else if ron && !json {
        Some(Format::Ron)
    } else {
        None
    }
}

impl FormatFlags {
    /// The formats that the switches select, or what is wrong with them.
    /// The input direction is looked at first.
    pub open spec fn resolved(self) -> Result<Formats, ConfigError> {
        match (chosen(self.in_json, self.in_ron), chosen(self.out_json, self.out_ron)) {
            (Some(input), Some(wire)) => Ok(Formats { input, wire }),
            (None, _) => Err(
                if self.in_json {
                    ConfigError::AmbiguousInputFormat
                } else {
                    ConfigError::NoInputFormat
                },
            ),
            (Some(_), None) => Err(
                if self.out_json {
                    ConfigError::AmbiguousWireFormat
                } else {
                    ConfigError::NoWireFormat
                },
            ),
        }
    }

    /// Settles the formats at startup: exactly one per direction has to be
    /// switched on, and anything else is refused rather than mended.
    pub fn resolve(self) -> (formats: Result<Formats, ConfigError>)
        ensures
            formats == self.resolved(),
            formats is Ok <==> (self.in_json != self.in_ron) && (self.out_json != self.out_ron),
    {
        let input = match pick(self.in_json, self.in_ron) {
            Some(format) => format,
            None => {
                return Err(
                    if self.in_json {
                        ConfigError::AmbiguousInputFormat
                    } else {
                        ConfigError::NoInputFormat
                    },
                );
            },
        };
        match pick(self.out_json, self.out_ron) {
            Some(wire) => Ok(Formats { input, wire }),
            None => Err(
                if self.out_json {
                    ConfigError::AmbiguousWireFormat
                } else {
                    ConfigError::NoWireFormat
                },
            ),
        }
    }
}

fn pick(json: bool, ron: bool) -> (format: Option<Format>)
    ensures
        format == chosen(json, ron),
{
    if json && !ron {
        Some(Format::Json)
    } else if ron && !json {
        Some(Format::Ron)
    } else {
        None
    }
}

} // verus!
