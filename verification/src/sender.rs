//! The delivery sink: selected once at startup from the backend settings,
//! it turns each validated frame into at most one outbound request. The
//! web variant plans one multipart POST per frame; the dry-run variant
//! plans nothing and always succeeds.

use vstd::prelude::*;

use crate::status_notify::StatusNotify;

verus! {

/// Serial transport settings supplied at startup.
pub struct Serial {
    /// Path of the serial port device.
    pub serial_port: String,
    /// Line speed in baud.
    pub baudrate: u32,
}

/// Delivery backend settings supplied at startup. An absent url selects
/// dry-run mode; the credentials are attached only when a username is set.
pub struct Backend {
    pub username: Option<String>,
    pub password: Option<String>,
    pub url: Option<String>,
}

/// The web delivery target: backend settings whose url is present.
pub struct WebBackend {
    pub backend: Backend,
}

impl WebBackend {
    /// A web target always has a destination url.
    pub open spec fn wf(&self) -> bool {
        self.backend.url is Some
    }
}

/// One outbound delivery as plain data: the destination, optional
/// basic-auth credentials, and the five form fields drawn from a validated
/// frame. Executing the POST is the caller's affair; the library only
/// fixes its content.
pub struct DeliveryRequest {
    /// Destination of the POST.
    pub url: String,
    /// Basic-auth user; credentials are attached exactly when this is set.
    pub username: Option<String>,
    /// Basic-auth password, meaningful only beside a username.
    pub password: Option<String>,
    /// Form field `wireless`: the frame's link quality indicator.
    pub wireless: u8,
    /// Form field `battery`: the frame's supply voltage in millivolts.
    pub battery: u16,
    /// Form field `doorsensor`: the frame's digital-input status byte.
    pub doorsensor: u8,
    /// Form field `status`: digital input 1 status.
    pub status: bool,
    /// Form field `changed`: digital input 1 changed.
    pub changed: bool,
}

/// The delivery sink, fixed for the life of the process: a web backend, or
/// nothing at all (dry-run mode).
pub enum Sender {
    Web(WebBackend),
    Nothing,
}

fn clone_opt_string(s: &Option<String>) -> (r: Option<String>)
    ensures
        r == *s,
{
    match s {
        Some(x) => Some(x.clone()),
        None => None,
    }
}

impl Sender {
    /// Every sink a caller can hold: a web sink knows its destination.
    pub open spec fn wf(&self) -> bool {
        self matches Sender::Web(w) ==> w.wf()
    }

    /// Select the sink from the backend settings, once at startup: dry-run
    /// exactly when no url is configured, the web backend otherwise.
    pub fn new(backend: Backend) -> (r: Self)
        ensures
            r.wf(),
            backend.url is None <==> r is Nothing,
            (r matches Sender::Web(w) ==> w.backend == backend),
    {
        if backend.url.is_some() {
            Sender::Web(WebBackend { backend })
        } else {
            Sender::Nothing
        }
    }

    /// Plan the delivery of one validated frame.
    ///
    /// The dry-run sink plans no outbound call: delivery counts as an
    /// immediate success. The web sink plans exactly one request, whose
    /// five form fields are fixed by the frame and whose destination and
    /// credentials are the configured ones.
    pub fn plan(&self, notify: &StatusNotify) -> (r: Option<DeliveryRequest>)
        requires
            self.wf(),
        ensures
            self is Nothing <==> r is None,
            (self matches Sender::Web(w) ==> r matches Some(q) && {
                &&& q.url == w.backend.url->0
                &&& q.username == w.backend.username
                &&& q.password == w.backend.password
                &&& q.wireless == notify@[4]
                &&& q.battery == notify@[13] * 0x100 + notify@[14]
                &&& q.doorsensor == notify@[16]
                &&& q.status == (notify@[16] & 0x01 != 0)
                &&& q.changed == (notify@[17] & 0x01 != 0)
            }),
    {
        match self {
            Sender::Nothing => None,
            Sender::Web(w) => {
                let url = match &w.backend.url {
                    Some(u) => u.clone(),
                    None => vstd::pervasive::unreached(),
                };
                Some(DeliveryRequest {
                    url,
                    username: clone_opt_string(&w.backend.username),
                    password: clone_opt_string(&w.backend.password),
                    wireless: notify.lqi(),
                    battery: notify.power_voltage_millis(),
                    doorsensor: notify.di_status(),
                    status: notify.di1_status(),
                    changed: notify.di1_changed(),
                })
            },
        }
    }
}

} // verus!
