use vstd::prelude::*;

use crate::descriptor::V4l2LoopbackCtl;

verus! {

/// Well-known path of the driver's control node.
pub const V4L2LOOPBACK_CTL_CTRL_DEVICE: &'static str = "/dev/v4l2loopback";

/// Request code that creates a device pair; exchanges a descriptor.
pub const V4L2LOOPBACK_CTL_ADD: u32 = 0x4C80;

/// Request code that removes a device pair; carries a device number.
pub const V4L2LOOPBACK_CTL_REMOVE: u32 = 0x4C81;

/// Request code that reads the state of a device pair; exchanges a descriptor.
pub const V4L2LOOPBACK_CTL_QUERY: u32 = 0x4C82;

/// The system error code for an invalid argument.
pub const EINVAL: i32 = 22;

/// Why an operation on the control node failed. Each variant carries the
/// system error code.
#[derive(Clone, Copy, Debug, PartialEq, Eq, Structural)]
pub enum LoopbackError {
    /// The control node could not be opened.
    Open(i32),
    /// The driver rejected a control request.
    Control(i32),
}

/// The three control requests, as sent to the driver.
#[derive(Clone, Copy, Debug, PartialEq, Eq)]
pub enum Request {
    /// Create a device pair described by the descriptor; the driver fills it in.
    Add(V4l2LoopbackCtl),
    /// Read the state of the device pair named by the descriptor's `output_nr`.
    Query(V4l2LoopbackCtl),
    /// Remove the device pair with this output number.
    Remove(u32),
}

impl Request {
    /// The request code the driver knows this request by.
    pub open spec fn spec_code(&self) -> u32 {
        match self {
            Request::Add(_) => V4L2LOOPBACK_CTL_ADD,
            Request::Query(_) => V4L2LOOPBACK_CTL_QUERY,
            Request::Remove(_) => V4L2LOOPBACK_CTL_REMOVE,
        }
    }

    #[verifier::when_used_as_spec(spec_code)]
    pub fn code(&self) -> (r: u32)
        ensures
            r == self.spec_code(),
    {
        match self {
            Request::Add(_) => V4L2LOOPBACK_CTL_ADD,
            Request::Query(_) => V4L2LOOPBACK_CTL_QUERY,
            Request::Remove(_) => V4L2LOOPBACK_CTL_REMOVE,
        }
    }
}

/// The request that creates output device `device_id`; a negative number asks
/// the driver to pick a free one.
pub fn add_request(device_id: i32) -> (r: Request)
    ensures
        r matches Request::Add(d) && d.is_request_for(device_id),
{
    Request::Add(V4l2LoopbackCtl::for_device(device_id))
}

/// The request that reads the state of output device `device_id`.
pub fn query_request(device_id: i32) -> (r: Request)
    ensures
        r matches Request::Query(d) && d.is_request_for(device_id),
{
    Request::Query(V4l2LoopbackCtl::for_device(device_id))
}

/// The request that removes output device `device_id`. The driver takes the
/// number unsigned, so a negative number names no device and is refused here
/// with `EINVAL`.
pub fn remove_request(device_id: i32) -> (r: Result<Request, LoopbackError>)
    ensures
        device_id >= 0 ==> r == Ok::<Request, LoopbackError>(Request::Remove(device_id as u32)),
        device_id < 0 ==> r == Err::<Request, LoopbackError>(LoopbackError::Control(EINVAL)),
{
    if device_id < 0 {
        Err(LoopbackError::Control(EINVAL))
    } else {
        Ok(Request::Remove(device_id as u32))
    }
}

/// What a create or query returns, given the descriptor as the driver left
/// it and the outcome of the request: the descriptor on success, else the
/// driver's error code as a control error.
pub fn descriptor_outcome(filled: V4l2LoopbackCtl, status: Result<i32, i32>) -> (r: Result<
    V4l2LoopbackCtl,
    LoopbackError,
>)
    ensures
        status is Ok ==> r == Ok::<V4l2LoopbackCtl, LoopbackError>(filled),
        status matches Err(code) ==> r == Err::<V4l2LoopbackCtl, LoopbackError>(
            LoopbackError::Control(code),
        ),
{
    match status {
        Ok(_) => Ok(filled),
        Err(code) => Err(LoopbackError::Control(code)),
    }
}

/// What a remove returns, given the outcome of the request: nothing on
/// success, else the driver's error code as a control error.
pub fn remove_outcome(status: Result<i32, i32>) -> (r: Result<(), LoopbackError>)
    ensures
        status is Ok ==> r is Ok,
        status matches Err(code) ==> r == Err::<(), LoopbackError>(LoopbackError::Control(code)),
{
    match status {
        Ok(_) => Ok(()),
        Err(code) => Err(LoopbackError::Control(code)),
    }
}

} // verus!
