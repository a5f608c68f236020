use vstd::prelude::*;
use crate::control::{ctrl_step, Control};
use crate::driver::{drv_matches, DriverModel, Speed, UsbDriver};
use crate::event::{InterruptEvent, UsbEvent, UsbInterface};
use crate::gcp::{
    command_args, command_class, command_verb, lemma_vendor_step_matches, vendor_step,
    CommandRegistry, GcpDispatch, GcpView,
};

verus! {

/// Where one drained event went.
#[derive(Clone, Copy, Debug, PartialEq, Eq)]
pub enum Routed {
    /// A control-port event, consumed by the control state machine and,
    /// when a setup packet came back, by the vendor dispatcher.
    Handled,
    /// A target-port event, handed back for the external target-side sink.
    Target(UsbEvent),
    /// An error message drained from the queue, for the caller to report.
    Message(&'static str),
    /// A control-port event for an endpoint this firmware does not drive.
    Unhandled,
}

/// Whether the control state machine is the addressee of an event:
/// a bus reset concerns it always, everything else only on its endpoint.
pub open spec fn is_control_event(event: UsbEvent, endpoint_number: u8) -> bool {
    match event.spec_endpoint() {
        None => true,
        Some(ep) => ep == endpoint_number,
    }
}

/// The protocol core wired together: the peripheral, the control state
/// machine on its control endpoint, the vendor dispatcher and the command
/// registry. The main loop drains the event queue and feeds every event
/// through `handle_event`.
pub struct Firmware<D: UsbDriver, R: CommandRegistry> {
    pub usb2: D,
    pub usb2_control: Control,
    pub gcp: GcpDispatch,
    pub registry: R,
}

impl<D: UsbDriver, R: CommandRegistry> Firmware<D, R> {
    pub open spec fn wf(self) -> bool {
        self.usb2_control@.wf()
    }

    pub fn new(usb2: D, usb2_control: Control, registry: R) -> (r: Firmware<D, R>)
        requires
            usb2_control@.wf(),
        ensures
            r.usb2 == usb2,
            r.usb2_control == usb2_control,
            r.registry == registry,
            r.gcp@ == (GcpView { response: None, error: None }),
            r.wf(),
    {
        Firmware { usb2, usb2_control, gcp: GcpDispatch::new(), registry }
    }

    /// Brings the device onto the bus: connects it at the advertised
    /// speed and enables the device-level interrupt event sources.
    pub fn initialize(&mut self, device_speed: Speed)
        requires
            old(self).wf(),
        ensures
            final(self).wf(),
            final(self).usb2.model() == (DriverModel {
                connected: Some(device_speed),
                events_enabled: true,
                ..old(self).usb2.model()
            }),
            final(self).usb2_control == old(self).usb2_control,
            final(self).gcp == old(self).gcp,
            final(self).registry == old(self).registry,
    {
        self.usb2.connect(device_speed);
        self.usb2.enable_events();
    }

    /// Routes one drained event: control-port events go through the
    /// control state machine and, when a setup packet is handed back, on
    /// to the vendor dispatcher with the collected payload; target-port
    /// events and error messages are handed back to the caller untouched.
    pub fn handle_event(&mut self, event: InterruptEvent) -> (r: Routed)
        requires
            old(self).wf(),
        ensures
            final(self).wf(),
            match event {
                InterruptEvent::ErrorMessage(message) => {
                    &&& r == Routed::Message(message)
                    &&& *final(self) == *old(self)
                },
                InterruptEvent::Usb(UsbInterface::Target, usb_event) => {
                    &&& r == Routed::Target(usb_event)
                    &&& *final(self) == *old(self)
                },
                InterruptEvent::Usb(UsbInterface::Control, usb_event) => {
                    if is_control_event(usb_event, old(self).usb2_control@.endpoint_number) {
                        let step = ctrl_step(
                            old(self).usb2_control@,
                            old(self).usb2.model(),
                            usb_event,
                        );
                        &&& r == Routed::Handled
                        &&& final(self).usb2_control@ == step.ctrl
                        &&& match step.ret {
                            None => {
                                &&& final(self).gcp@ == old(self).gcp@
                                &&& drv_matches(final(self).usb2.model(), step.drv)
                            },
                            Some(packet) => {
                                let vendor = vendor_step(
                                    old(self).gcp@,
                                    step.drv,
                                    packet,
                                    step.ctrl.rx,
                                    old(self).registry.dispatch_spec(
                                        command_class(step.ctrl.rx),
                                        command_verb(step.ctrl.rx),
                                        command_args(step.ctrl.rx),
                                    ),
                                );
                                &&& final(self).gcp@ == vendor.gcp
                                &&& drv_matches(final(self).usb2.model(), vendor.drv)
                            },
                        }
                    } else {
                        &&& r == Routed::Unhandled
                        &&& *final(self) == *old(self)
                    }
                },
            },
    {
        match event {
            InterruptEvent::ErrorMessage(message) => Routed::Message(message),
            InterruptEvent::Usb(UsbInterface::Target, usb_event) => Routed::Target(usb_event),
            InterruptEvent::Usb(UsbInterface::Control, usb_event) => {
                let relevant = match usb_event.endpoint() {
                    None => true,
                    Some(ep) => ep == self.usb2_control.endpoint_number(),
                };
                if relevant {
                    let returned = self.usb2_control.dispatch_event(&mut self.usb2, usb_event);
                    match returned {
                        Some(packet) => {
                            let ghost mid_model = self.usb2.model();
                            let ghost step = ctrl_step(
                                old(self).usb2_control@,
                                old(self).usb2.model(),
                                usb_event,
                            );
                            self.gcp.handle_vendor_request(
                                &mut self.usb2,
                                &mut self.registry,
                                &packet,
                                self.usb2_control.data(),
                            );
                            proof {
                                lemma_vendor_step_matches(
                                    old(self).gcp@,
                                    mid_model,
                                    step.drv,
                                    packet,
                                    step.ctrl.rx,
                                    old(self).registry.dispatch_spec(
                                        command_class(step.ctrl.rx),
                                        command_verb(step.ctrl.rx),
                                        command_args(step.ctrl.rx),
                                    ),
                                );
                            }
                        }
                        None => {}
                    }
                    Routed::Handled
                } else {
                    Routed::Unhandled
                }
            }
        }
    }
}

} // verus!
