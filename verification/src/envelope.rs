use vstd::prelude::*;
use vstd::string::StringExecFns;

use crate::RestError;
use crate::decimal::{spec_decimal, u64_to_string};

verus! {

/// A common REST envelope: an application status code where zero means
/// success, an optional message, and an optional payload.
///
/// Its extraction rule is one convention among many; the generic dispatch in
/// [`crate::client`] does not depend on it, only on the [`crate::Response`]
/// contract that a concrete binding of this type implements.
#[derive(Debug)]
pub struct RestResponse<T> {
    pub code: u64,
    pub msg: Option<String>,
    pub data: Option<T>,
}

impl<T> RestResponse<T> {
    /// What the envelope rules. A success code with a payload yields the
    /// payload unchanged; a success code without one is a failure that says
    /// so; a failure code yields the envelope's message, or one derived from
    /// the code where no message came.
    pub open spec fn spec_extract(self) -> Result<T, Seq<char>> {
        if self.code == 0 {
            match self.data {
                Some(d) => Ok(d),
                None => Err("no data"@),
            }
        } else {
            match self.msg {
                Some(m) => Err(m@),
                None => Err("error code: "@ + spec_decimal(self.code as nat)),
            }
        }
    }

    /// Consume the envelope and yield its payload or its application error.
    pub fn extract(self) -> (r: Result<T, RestError>)
        ensures
            match self.spec_extract() {
                Ok(d) => r == Ok::<T, RestError>(d),
                Err(m) => r matches Err(e) && (e matches RestError::Application { message }
                    && message@ == m),
            },
    {
        if self.code == 0 {
            match self.data {
                Some(d) => Ok(d),
                None => Err(RestError::Application { message: "no data".to_owned() }),
            }
        } else {
            match self.msg {
                Some(m) => Err(RestError::Application { message: m }),
                None => {
                    let mut message: String = "error code: ".to_owned();
                    message.append(u64_to_string(self.code).as_str());
                    Err(RestError::Application { message })
                },
            }
        }
    }
}

/// A success envelope that carries a payload yields exactly that payload:
/// what was wrapped into the envelope comes back out unchanged.
pub proof fn lemma_extract_success_payload<T>(env: RestResponse<T>)
    requires
        env.code == 0,
        env.data is Some,
    ensures
        env.spec_extract() == Ok::<T, Seq<char>>(env.data->Some_0),
{
}

/// A success envelope without a payload does not invent one: extraction
/// fails, saying that the data is missing.
pub proof fn lemma_extract_missing_data<T>(env: RestResponse<T>)
    requires
        env.code == 0,
        env.data is None,
    ensures
        env.spec_extract() == Err::<T, Seq<char>>("no data"@),
{
}

/// A failure envelope fails with its own message where one came, and with a
/// message derived from its code where none did.
pub proof fn lemma_extract_failure_message<T>(env: RestResponse<T>)
    requires
        env.code != 0,
    ensures
        env.msg matches Some(m) ==> env.spec_extract() == Err::<T, Seq<char>>(m@),
        env.msg is None ==> env.spec_extract() == Err::<T, Seq<char>>(
            "error code: "@ + spec_decimal(env.code as nat),
        ),
{
}

} // verus!
