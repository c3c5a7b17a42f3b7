//! Lifecycle states of a recording task.
use vstd::prelude::*;

use crate::text::{concat2, str_eq};

verus! {

/// State of a recording task as shown to the user.
#[derive(Debug, Clone, Copy, PartialEq, Eq, Structural)]
pub enum RecordingStatus {
    StoppedMonitoring,
    Monitoring,
    Recording,
    NotRecording,
    StatusChecking,
    NotInScheduledCheck,
    PreparingRecording,
    RecordingError,
    NotRecordingSpace,
    LiveStatusCheckError,
    LiveBroadcasting,
}

impl RecordingStatus {
    /// The stable code of the state.
    pub open spec fn spec_as_str(self) -> Seq<char> {
        match self {
            RecordingStatus::StoppedMonitoring => "STOPPED_MONITORING"@,
            RecordingStatus::Monitoring => "MONITORING"@,
            RecordingStatus::Recording => "RECORDING"@,
            RecordingStatus::NotRecording => "NOT_RECORDING"@,
            RecordingStatus::StatusChecking => "STATUS_CHECKING"@,
            RecordingStatus::NotInScheduledCheck => "NOT_IN_SCHEDULED_CHECK"@,
            RecordingStatus::PreparingRecording => "PREPARING_RECORDING"@,
            RecordingStatus::RecordingError => "RECORDING_ERROR"@,
            RecordingStatus::NotRecordingSpace => "NOT_RECORDING_SPACE"@,
            RecordingStatus::LiveStatusCheckError => "LIVE_STATUS_CHECK_ERROR"@,
            RecordingStatus::LiveBroadcasting => "LIVE_BROADCASTING"@,
        }
    }

    /// The user-facing description of the state.
    pub open spec fn spec_description(self) -> Seq<char> {
        match self {
            RecordingStatus::StoppedMonitoring => "已停止监控"@,
            RecordingStatus::Monitoring => "监控中"@,
            RecordingStatus::Recording => "正在录制"@,
            RecordingStatus::NotRecording => "未录制"@,
            RecordingStatus::StatusChecking => "正在检查直播状态"@,
            RecordingStatus::NotInScheduledCheck => "不在定时检查范围"@,
            RecordingStatus::PreparingRecording => "准备录制中"@,
            RecordingStatus::RecordingError => "录制出错"@,
            RecordingStatus::NotRecordingSpace => "磁盘空间不足"@,
            RecordingStatus::LiveStatusCheckError => "直播状态检查失败"@,
            RecordingStatus::LiveBroadcasting => "直播中"@,
        }
    }

    pub fn as_str(&self) -> (r: &'static str)
        ensures
            r@ == self.spec_as_str(),
    {
        match self {
            RecordingStatus::StoppedMonitoring => "STOPPED_MONITORING",
            RecordingStatus::Monitoring => "MONITORING",
            RecordingStatus::Recording => "RECORDING",
            RecordingStatus::NotRecording => "NOT_RECORDING",
            RecordingStatus::StatusChecking => "STATUS_CHECKING",
            RecordingStatus::NotInScheduledCheck => "NOT_IN_SCHEDULED_CHECK",
            RecordingStatus::PreparingRecording => "PREPARING_RECORDING",
            RecordingStatus::RecordingError => "RECORDING_ERROR",
            RecordingStatus::NotRecordingSpace => "NOT_RECORDING_SPACE",
            RecordingStatus::LiveStatusCheckError => "LIVE_STATUS_CHECK_ERROR",
            RecordingStatus::LiveBroadcasting => "LIVE_BROADCASTING",
        }
    }

    pub fn description(&self) -> (r: &'static str)
        ensures
            r@ == self.spec_description(),
    {
        match self {
            RecordingStatus::StoppedMonitoring => "已停止监控",
            RecordingStatus::Monitoring => "监控中",
            RecordingStatus::Recording => "正在录制",
            RecordingStatus::NotRecording => "未录制",
            RecordingStatus::StatusChecking => "正在检查直播状态",
            RecordingStatus::NotInScheduledCheck => "不在定时检查范围",
            RecordingStatus::PreparingRecording => "准备录制中",
            RecordingStatus::RecordingError => "录制出错",
            RecordingStatus::NotRecordingSpace => "磁盘空间不足",
            RecordingStatus::LiveStatusCheckError => "直播状态检查失败",
            RecordingStatus::LiveBroadcasting => "直播中",
        }
    }

    /// Parses a state code (the inverse of `as_str`); any other text is refused
    /// with the message `Unknown status: <text>`.
    pub fn parse(s: &str) -> (r: Result<RecordingStatus, String>)
        ensures
            match r {
                Ok(st) => st.spec_as_str() == s@,
                Err(e) => (forall|st: RecordingStatus| #[trigger] st.spec_as_str() != s@) && e@
                    == "Unknown status: "@ + s@,
            },
    {
        let all = [
            RecordingStatus::StoppedMonitoring,
            RecordingStatus::Monitoring,
            RecordingStatus::Recording,
            RecordingStatus::NotRecording,
            RecordingStatus::StatusChecking,
            RecordingStatus::NotInScheduledCheck,
            RecordingStatus::PreparingRecording,
            RecordingStatus::RecordingError,
            RecordingStatus::NotRecordingSpace,
            RecordingStatus::LiveStatusCheckError,
            RecordingStatus::LiveBroadcasting,
        ];
        let n = all.len();
        for i in 0..n
            invariant
                n == all@.len(),
                n == 11,
                all@ == seq![
                    RecordingStatus::StoppedMonitoring,
                    RecordingStatus::Monitoring,
                    RecordingStatus::Recording,
                    RecordingStatus::NotRecording,
                    RecordingStatus::StatusChecking,
                    RecordingStatus::NotInScheduledCheck,
                    RecordingStatus::PreparingRecording,
                    RecordingStatus::RecordingError,
                    RecordingStatus::NotRecordingSpace,
                    RecordingStatus::LiveStatusCheckError,
                    RecordingStatus::LiveBroadcasting,
                ],
                forall|k: int| 0 <= k < i ==> (#[trigger] all@[k]).spec_as_str() != s@,
        {
            if str_eq(all[i].as_str(), s) {
                return Ok(all[i]);
            }
        }
        assert forall|st: RecordingStatus| #[trigger] st.spec_as_str() != s@ by {
            match st {
                RecordingStatus::StoppedMonitoring => assert(all@[0] == st),
                RecordingStatus::Monitoring => assert(all@[1] == st),
                RecordingStatus::Recording => assert(all@[2] == st),
                RecordingStatus::NotRecording => assert(all@[3] == st),
                RecordingStatus::StatusChecking => assert(all@[4] == st),
                RecordingStatus::NotInScheduledCheck => assert(all@[5] == st),
                RecordingStatus::PreparingRecording => assert(all@[6] == st),
                RecordingStatus::RecordingError => assert(all@[7] == st),
                RecordingStatus::NotRecordingSpace => assert(all@[8] == st),
                RecordingStatus::LiveStatusCheckError => assert(all@[9] == st),
                RecordingStatus::LiveBroadcasting => assert(all@[10] == st),
            }
        }
        Err(concat2("Unknown status: ", s))
    }
}

/// Distinct states have distinct codes.
pub proof fn lemma_status_code_injective(a: RecordingStatus, b: RecordingStatus)
    ensures
        a.spec_as_str() == b.spec_as_str() ==> a == b,
{
    reveal_strlit("STOPPED_MONITORING");
    reveal_strlit("MONITORING");
    reveal_strlit("RECORDING");
    reveal_strlit("NOT_RECORDING");
    reveal_strlit("STATUS_CHECKING");
    reveal_strlit("NOT_IN_SCHEDULED_CHECK");
    reveal_strlit("PREPARING_RECORDING");
    reveal_strlit("RECORDING_ERROR");
    reveal_strlit("NOT_RECORDING_SPACE");
    reveal_strlit("LIVE_STATUS_CHECK_ERROR");
    reveal_strlit("LIVE_BROADCASTING");
    if a.spec_as_str() == b.spec_as_str() {
        assert(a.spec_as_str().len() == b.spec_as_str().len());
        assert(a.spec_as_str()[0] == b.spec_as_str()[0]);
    }
}

/// Parsing the code of a state gives back that state: no other state has
/// the same code, so `parse(as_str(st))` can only be `Ok(st)`.
pub proof fn law_status_code_roundtrip(st: RecordingStatus)
    ensures
        forall|p: RecordingStatus| #[trigger] p.spec_as_str() == st.spec_as_str() ==> p == st,
{
    assert forall|p: RecordingStatus| #[trigger] p.spec_as_str() == st.spec_as_str() implies p
        == st by {
        lemma_status_code_injective(p, st);
    }
}

impl core::str::FromStr for RecordingStatus {
    type Err = String;

    fn from_str(s: &str) -> (r: Result<RecordingStatus, String>)
        ensures
            match r {
                Ok(st) => st.spec_as_str() == s@,
                Err(e) => (forall|st: RecordingStatus| #[trigger] st.spec_as_str() != s@) && e@
                    == "Unknown status: "@ + s@,
            },
    {
        RecordingStatus::parse(s)
    }
}

} // verus!
