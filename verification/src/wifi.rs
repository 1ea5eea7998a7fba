use vstd::prelude::*;
use crate::config::ClientConfig;

verus! {

/// The stages of bringing the radio up as a client, in the order they are
/// passed through.
#[derive(Clone, Copy, Debug, PartialEq, Eq, Structural)]
pub enum WifiStage {
    Unconfigured,
    Configured,
    Started,
    Connecting,
    IpAssigned,
}

/// The fatal error each association transition raises when the platform
/// reports failure.
#[derive(Clone, Copy, Debug, PartialEq, Eq, Structural)]
pub enum WifiError {
    /// The driver rejected the client configuration.
    Configuration,
    /// The driver failed to start.
    Driver,
    /// Association with the network failed.
    Association,
    /// No IP configuration was assigned to the interface.
    IpWait,
}

/// The stage reached after a successful transition out of `s`; the final
/// stage has no successor.
pub open spec fn spec_next_stage(s: WifiStage) -> WifiStage {
    match s {
        WifiStage::Unconfigured => WifiStage::Configured,
        WifiStage::Configured => WifiStage::Started,
        WifiStage::Started => WifiStage::Connecting,
        WifiStage::Connecting => WifiStage::IpAssigned,
        WifiStage::IpAssigned => WifiStage::IpAssigned,
    }
}

/// Position of a stage in the fixed bring-up order.
pub open spec fn spec_stage_rank(s: WifiStage) -> int {
    match s {
        WifiStage::Unconfigured => 0,
        WifiStage::Configured => 1,
        WifiStage::Started => 2,
        WifiStage::Connecting => 3,
        WifiStage::IpAssigned => 4,
    }
}

/// The association state machine. It advances one stage at a time in the
/// fixed order Unconfigured, Configured, Started, Connecting, IpAssigned, as
/// the surrounding program reports the outcome of each platform call; any
/// reported failure leaves the stage unchanged and yields the fatal error of
/// that transition.
#[derive(Clone, Copy, Debug, PartialEq, Eq, Structural)]
pub struct Association {
    stage: WifiStage,
}

impl Association {
    pub closed spec fn spec_stage(self) -> WifiStage {
        self.stage
    }

    pub fn new() -> (r: Association)
        ensures
            r.spec_stage() == WifiStage::Unconfigured,
    {
        Association { stage: WifiStage::Unconfigured }
    }

    pub fn stage(&self) -> (r: WifiStage)
        ensures
            r == self.spec_stage(),
    {
        self.stage
    }

    /// Records the outcome of handing a validated client configuration to the
    /// driver: `accepted` succeeds into Configured, rejection is the fatal
    /// configuration error.
    pub fn apply_configuration(&mut self, cfg: &ClientConfig, accepted: bool) -> (r: Result<
        (),
        WifiError,
    >)
        requires
            old(self).spec_stage() == WifiStage::Unconfigured,
            cfg.wf(),
        ensures
            accepted ==> r is Ok && final(self).spec_stage() == WifiStage::Configured,
            !accepted ==> r == Err::<(), WifiError>(WifiError::Configuration)
                && final(self).spec_stage() == old(self).spec_stage(),
    {
        if accepted {
            self.stage = WifiStage::Configured;
            Ok(())
        } else {
            Err(WifiError::Configuration)
        }
    }

    /// Records the outcome of starting the radio driver.
    pub fn start(&mut self, started: bool) -> (r: Result<(), WifiError>)
        requires
            old(self).spec_stage() == WifiStage::Configured,
        ensures
            started ==> r is Ok && final(self).spec_stage() == WifiStage::Started,
            !started ==> r == Err::<(), WifiError>(WifiError::Driver) && final(self).spec_stage()
                == old(self).spec_stage(),
    {
        if started {
            self.stage = WifiStage::Started;
            Ok(())
        } else {
            Err(WifiError::Driver)
        }
    }

    /// Records the outcome of issuing the connect request.
    pub fn connect(&mut self, associated: bool) -> (r: Result<(), WifiError>)
        requires
            old(self).spec_stage() == WifiStage::Started,
        ensures
            associated ==> r is Ok && final(self).spec_stage() == WifiStage::Connecting,
            !associated ==> r == Err::<(), WifiError>(WifiError::Association)
                && final(self).spec_stage() == old(self).spec_stage(),
    {
        if associated {
            self.stage = WifiStage::Connecting;
            Ok(())
        } else {
            Err(WifiError::Association)
        }
    }

    /// Records the outcome of waiting for the interface to report a non-empty
    /// IP configuration.
    pub fn await_ip(&mut self, assigned: bool) -> (r: Result<(), WifiError>)
        requires
            old(self).spec_stage() == WifiStage::Connecting,
        ensures
            assigned ==> r is Ok && final(self).spec_stage() == WifiStage::IpAssigned,
            !assigned ==> r == Err::<(), WifiError>(WifiError::IpWait) && final(self).spec_stage()
                == old(self).spec_stage(),
    {
        if assigned {
            self.stage = WifiStage::IpAssigned;
            Ok(())
        } else {
            Err(WifiError::IpWait)
        }
    }
}

/// Stages advance one position at a time in the fixed order, so the connect
/// step (taken at Started) is reached only after a configuration was applied
/// (Configured), which in turn demands a configuration that passed
/// validation.
/// A failed or rejected configuration application leaves the association at
/// Unconfigured, and the connect step is taken only at Started: after a
/// configuration error no connect attempt can follow.
pub proof fn lemma_no_connect_after_rejected_configuration(a: Association)
    requires
        a.spec_stage() == WifiStage::Unconfigured,
    ensures
        a.spec_stage() != WifiStage::Started,
{
}

pub proof fn lemma_stage_order(s: WifiStage)
    ensures
        s != WifiStage::IpAssigned ==> spec_stage_rank(spec_next_stage(s)) == spec_stage_rank(s)
            + 1,
        spec_next_stage(s) == WifiStage::Started ==> s == WifiStage::Configured,
        spec_next_stage(s) == WifiStage::Connecting ==> s == WifiStage::Started,
        spec_next_stage(WifiStage::Unconfigured) == WifiStage::Configured,
{
}

} // verus!
