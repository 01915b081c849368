use nasne_exporter::error::ExportError;
use nasne_exporter::model::DeviceIdentity;
use nasne_exporter::probe::{advance, begin, Fetched, Probe, Step};

const IDENTITY_BODY: &str = "{\"errorcode\": 0, \"name\": \"Study\"}";

const STORAGE_BODY: &str = "{\"errorcode\": 0, \"HDD\": {\"totalVolumeSize\": 5000000000, \
    \"freeVolumeSize\": 2000000000, \"usedVolumeSize\": 3000000000, \"serialNumber\": \"SN-1\", \
    \"id\": 0, \"internalFlag\": 1, \"mountStatus\": 2, \"registerFlag\": 3, \"format\": \"xfs\", \
    \"name\": \"hdd0\", \"vendorID\": \"v\", \"productID\": \"p\"}}";

fn body(text: &str) -> Fetched {
    Fetched::Body(text.to_string())
}

fn study() -> DeviceIdentity {
    DeviceIdentity { error_code: 0, name: "Study".to_string() }
}

#[test]
fn query_starts_with_the_identity() {
    assert_eq!(
        begin("10.0.0.5"),
        Step::Fetch {
            url: "http://10.0.0.5:64210/status/boxNameGet".to_string(),
            state: Probe::AwaitingIdentity
        }
    );
}

#[test]
fn identity_is_followed_by_the_storage_status() {
    assert_eq!(
        advance("10.0.0.5", Probe::AwaitingIdentity, body(IDENTITY_BODY)),
        Step::Fetch {
            url: "http://10.0.0.5:64210/status/HDDInfoGet?id=0".to_string(),
            state: Probe::AwaitingStorage(study())
        }
    );
}

#[test]
fn storage_status_completes_the_reading() {
    match advance("10.0.0.5", Probe::AwaitingStorage(study()), body(STORAGE_BODY)) {
        Step::Done(Ok(reading)) => {
            assert_eq!(reading.identity, study());
            assert_eq!(reading.storage.error_code, 0);
            assert_eq!(reading.storage.hdd.total_volume_size, 5000000000);
            assert_eq!(reading.storage.hdd.free_volume_size, 2000000000);
            assert_eq!(reading.storage.hdd.used_volume_size, 3000000000);
        }
        other => panic!("{:?}", other),
    }
}

#[test]
fn failed_fetch_ends_the_query() {
    assert_eq!(
        advance("10.0.0.5", Probe::AwaitingIdentity, Fetched::Failed),
        Step::Done(Err(ExportError::Transport))
    );
    assert_eq!(
        advance("10.0.0.5", Probe::AwaitingStorage(study()), Fetched::Failed),
        Step::Done(Err(ExportError::Transport))
    );
}

#[test]
fn undecodable_body_ends_the_query() {
    assert_eq!(
        advance("10.0.0.5", Probe::AwaitingIdentity, body("{\"errorcode\": 0}")),
        Step::Done(Err(ExportError::Decode))
    );
    assert_eq!(
        advance("10.0.0.5", Probe::AwaitingIdentity, body(STORAGE_BODY)),
        Step::Done(Err(ExportError::Decode))
    );
    assert_eq!(
        advance("10.0.0.5", Probe::AwaitingStorage(study()), body(IDENTITY_BODY)),
        Step::Done(Err(ExportError::Decode))
    );
    assert_eq!(
        advance("10.0.0.5", Probe::AwaitingStorage(study()), body("not json")),
        Step::Done(Err(ExportError::Decode))
    );
}

#[test]
fn storage_body_without_total_volume_size_gives_no_reading() {
    let broken = STORAGE_BODY.replace("\"totalVolumeSize\": 5000000000, ", "");
    assert_eq!(
        advance("10.0.0.5", Probe::AwaitingStorage(study()), body(&broken)),
        Step::Done(Err(ExportError::Decode))
    );
}
