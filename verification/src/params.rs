use vstd::prelude::*;
use vstd::string::StringExecFns;

verus! {

/// The machine type tag a custom parameter is published under.
#[derive(Clone, Copy, PartialEq, Eq, Structural, Debug)]
pub enum CustomParamType {
    Number,
    Text,
    Boolean,
}

/// One custom parameter in a function's published schema.
#[derive(Clone, Debug)]
pub struct CustomParam {
    pub name: String,
    pub description: String,
    pub param_type: CustomParamType,
    pub default: Option<String>,
}

/// The schema every function publishes: how many input and output streams it
/// takes and yields, and its custom parameters in declaration order.
#[derive(Clone, Debug)]
pub struct FunctionParameters {
    pub max_inputs: u32,
    pub max_outputs: u32,
    pub custom_params: Vec<CustomParam>,
}

/// Builds a `FunctionParameters` value step by step, as the functions
/// declare their schemas.
pub struct FunctionParamsBuilder {
    pub max_inputs: u32,
    pub max_outputs: u32,
    pub custom_params: Vec<CustomParam>,
}

impl FunctionParamsBuilder {
    /// An empty schema: no streams, no parameters.
    pub fn new() -> (r: FunctionParamsBuilder)
        ensures
            r.max_inputs == 0,
            r.max_outputs == 0,
            r.custom_params@.len() == 0,
    {
        FunctionParamsBuilder { max_inputs: 0, max_outputs: 0, custom_params: Vec::new() }
    }

    /// Declare how many input streams the function takes.
    pub fn max_inputs(self, n: u32) -> (r: FunctionParamsBuilder)
        ensures
            r.max_inputs == n,
            r.max_outputs == self.max_outputs,
            r.custom_params@ == self.custom_params@,
    {
        FunctionParamsBuilder {
            max_inputs: n,
            max_outputs: self.max_outputs,
            custom_params: self.custom_params,
        }
    }

    /// Declare how many output streams the function yields.
    pub fn max_outputs(self, n: u32) -> (r: FunctionParamsBuilder)
        ensures
            r.max_inputs == self.max_inputs,
            r.max_outputs == n,
            r.custom_params@ == self.custom_params@,
    {
        FunctionParamsBuilder {
            max_inputs: self.max_inputs,
            max_outputs: n,
            custom_params: self.custom_params,
        }
    }

    /// Append one custom parameter to the schema, with its name, its
    /// description, its machine type tag, and its documented default.
    pub fn custom_param(
        self,
        name: &str,
        description: &str,
        param_type: CustomParamType,
        default: Option<&str>,
    ) -> (r: FunctionParamsBuilder)
        ensures
            r.max_inputs == self.max_inputs,
            r.max_outputs == self.max_outputs,
            r.custom_params@.len() == self.custom_params@.len() + 1,
            r.custom_params@.drop_last() == self.custom_params@,
            r.custom_params@.last().name@ == name@,
            r.custom_params@.last().description@ == description@,
            r.custom_params@.last().param_type == param_type,
            default matches Some(d) ==> (r.custom_params@.last().default matches Some(dd)
                && dd@ == d@),
            default is None ==> r.custom_params@.last().default is None,
    {
        let default_owned = match default {
            Some(d) => Some(String::from_str(d)),
            None => None,
        };
        let mut custom_params = self.custom_params;
        custom_params.push(
            CustomParam {
                name: String::from_str(name),
                description: String::from_str(description),
                param_type,
                default: default_owned,
            },
        );
        FunctionParamsBuilder {
            max_inputs: self.max_inputs,
            max_outputs: self.max_outputs,
            custom_params,
        }
    }

    /// The finished schema.
    pub fn build(self) -> (r: FunctionParameters)
        ensures
            r.max_inputs == self.max_inputs,
            r.max_outputs == self.max_outputs,
            r.custom_params@ == self.custom_params@,
    {
        FunctionParameters {
            max_inputs: self.max_inputs,
            max_outputs: self.max_outputs,
            custom_params: self.custom_params,
        }
    }
}

} // verus!
