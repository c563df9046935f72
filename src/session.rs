use crate::error::CaptureError;
use vstd::prelude::*;

verus! {

/// The process's capture session: the enumerated input devices, which of
/// them is selected, and the live stream, if any.
///
/// The session is Active exactly when it holds a stream, so it never holds
/// two. Opening and closing a device is left to the caller: the session
/// decides which device to open, takes the stream once opened, and hands it
/// back to be closed.
pub struct CaptureSession<D, S> {
    devices: Vec<D>,
    selected: usize,
    stream: Option<S>,
}

impl<D, S> CaptureSession<D, S> {
    pub closed spec fn spec_devices(&self) -> Seq<D> {
        self.devices@
    }

    pub closed spec fn spec_selected(&self) -> nat {
        self.selected as nat
    }

    pub closed spec fn spec_stream(&self) -> Option<S> {
        self.stream
    }

    pub open spec fn spec_active(&self) -> bool {
        self.spec_stream() is Some
    }

    /// A Stopped session over the enumerated devices, with the first one
    /// selected.
    pub fn new(devices: Vec<D>) -> (r: Self)
        ensures
            r.spec_devices() == devices@,
            r.spec_selected() == 0,
            r.spec_stream() is None,
    {
        CaptureSession { devices, selected: 0, stream: None }
    }

    /// The enumerated devices.
    pub fn list_devices(&self) -> (r: &Vec<D>)
        ensures
            r@ == self.spec_devices(),
    {
        &self.devices
    }

    /// The position of the selected device.
    pub fn selected_index(&self) -> (r: usize)
        ensures
            r == self.spec_selected(),
    {
        self.selected
    }

    /// The selected device, if one stands at the selected position.
    pub fn selected_device(&self) -> (r: Option<&D>)
        ensures
            self.spec_selected() < self.spec_devices().len() ==> r == Some(
                &self.spec_devices()[self.spec_selected() as int],
            ),
            self.spec_selected() >= self.spec_devices().len() ==> r is None,
    {
        if self.selected < self.devices.len() {
            Some(&self.devices[self.selected])
        } else {
            None
        }
    }

    pub fn is_active(&self) -> (r: bool)
        ensures
            r == self.spec_active(),
    {
        self.stream.is_some()
    }

    /// The position of the device that `start` is to open: an error where a
    /// stream is already open, or where no device is selected.
    pub fn start_target(&self) -> (r: Result<usize, CaptureError>)
        ensures
            self.spec_active() ==> r == Err::<usize, CaptureError>(CaptureError::AlreadyActive),
            !self.spec_active() && self.spec_selected() >= self.spec_devices().len() ==> r
                == Err::<usize, CaptureError>(CaptureError::NoDevice),
            !self.spec_active() && self.spec_selected() < self.spec_devices().len() ==> r
                == Ok::<usize, CaptureError>(self.spec_selected() as usize),
    {
        if self.stream.is_some() {
            Err(CaptureError::AlreadyActive)
        } else if self.selected >= self.devices.len() {
            Err(CaptureError::NoDevice)
        } else {
            Ok(self.selected)
        }
    }

    /// Completes `start` with the outcome of opening the target device: an
    /// opened stream makes the session Active; an error leaves it Stopped
    /// and unchanged, and is handed back.
    pub fn finish_start(&mut self, opened: Result<S, CaptureError>) -> (r: Result<(), CaptureError>)
        requires
            !old(self).spec_active(),
        ensures
            final(self).spec_devices() == old(self).spec_devices(),
            final(self).spec_selected() == old(self).spec_selected(),
            match opened {
                Ok(s) => r is Ok && final(self).spec_stream() == Some(s),
                Err(e) => r == Err::<(), CaptureError>(e) && final(self).spec_stream() is None,
            },
    {
        match opened {
            Ok(s) => {
                self.stream = Some(s);
                Ok(())
            },
            Err(e) => Err(e),
        }
    }

    /// Stops capture: hands back the open stream, to be closed, and leaves
    /// the session Stopped. On a Stopped session it does nothing.
    pub fn stop(&mut self) -> (r: Option<S>)
        ensures
            r == old(self).spec_stream(),
            final(self).spec_stream() is None,
            final(self).spec_devices() == old(self).spec_devices(),
            final(self).spec_selected() == old(self).spec_selected(),
    {
        self.stream.take()
    }

    /// Selects the device at `index`. Where capture was running, it is
    /// stopped and the stream handed back: the caller closes it and starts
    /// again on the new device. An index past the device list is refused
    /// and changes nothing.
    pub fn select_device(&mut self, index: usize) -> (r: Result<Option<S>, CaptureError>)
        ensures
            final(self).spec_devices() == old(self).spec_devices(),
            index < old(self).spec_devices().len() ==> {
                &&& r == Ok::<Option<S>, CaptureError>(old(self).spec_stream())
                &&& final(self).spec_selected() == index
                &&& final(self).spec_stream() is None
            },
            index >= old(self).spec_devices().len() ==> {
                &&& r == Err::<Option<S>, CaptureError>(CaptureError::NoDevice)
                &&& final(self).spec_selected() == old(self).spec_selected()
                &&& final(self).spec_stream() == old(self).spec_stream()
            },
    {
        if index >= self.devices.len() {
            return Err(CaptureError::NoDevice);
        }
        self.selected = index;
        Ok(self.stream.take())
    }
}

} // verus!

