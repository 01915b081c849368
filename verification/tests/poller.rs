use nasne_exporter::config::device_list;
use nasne_exporter::error::ExportError;
use nasne_exporter::model::Reading;
use nasne_exporter::observation::Metric;
use nasne_exporter::poller::{Action, Event, Poller, POLL_INTERVAL_SECONDS};
use nasne_exporter::probe::{advance, begin, Fetched, Step};
use nasne_exporter::registry::Registry;

const STORAGE_BODY: &str = "{\"errorcode\": 0, \"HDD\": {\"totalVolumeSize\": 5000000000, \
    \"freeVolumeSize\": 2000000000, \"usedVolumeSize\": 3000000000, \"serialNumber\": \"SN-1\", \
    \"id\": 0, \"internalFlag\": 1, \"mountStatus\": 2, \"registerFlag\": 3, \"format\": \"xfs\", \
    \"name\": \"hdd0\", \"vendorID\": \"v\", \"productID\": \"p\"}}";

/// Two devices answer: "Study" at 10.0.0.5 and "Attic" at 10.0.0.7, whose disk document lacks a
/// member. Every other address refuses the connection.
fn fetch(url: &str) -> Fetched {
    match url {
        "http://10.0.0.5:64210/status/boxNameGet" => {
            Fetched::Body("{\"errorcode\": 0, \"name\": \"Study\"}".to_string())
        }
        "http://10.0.0.5:64210/status/HDDInfoGet?id=0" => Fetched::Body(STORAGE_BODY.to_string()),
        "http://10.0.0.7:64210/status/boxNameGet" => {
            Fetched::Body("{\"errorcode\": 0, \"name\": \"Attic\"}".to_string())
        }
        "http://10.0.0.7:64210/status/HDDInfoGet?id=0" => {
            Fetched::Body(STORAGE_BODY.replace("\"usedVolumeSize\": 3000000000, ", ""))
        }
        _ => Fetched::Failed,
    }
}

fn query(address: &str) -> Result<Reading, ExportError> {
    let mut step = begin(address);
    loop {
        match step {
            Step::Fetch { url, state } => step = advance(address, state, fetch(&url)),
            Step::Done(outcome) => return outcome,
        }
    }
}

/// Runs the poller up to its next pause and returns the addresses it asked for.
fn round(poller: &mut Poller, registry: &mut Registry) -> Vec<String> {
    let mut asked = Vec::new();
    let mut action = poller.action();
    loop {
        match action {
            Action::Query { address } => {
                let outcome = query(&address);
                asked.push(address);
                action = poller.advance(Event::Probed(outcome), registry);
            }
            Action::Sleep { seconds } => {
                assert_eq!(seconds, 10);
                return asked;
            }
        }
    }
}

fn devices(list: &[&str]) -> Vec<String> {
    list.iter().map(|address| address.to_string()).collect()
}

#[test]
fn poll_interval_is_ten_seconds() {
    assert_eq!(POLL_INTERVAL_SECONDS, 10);
}

#[test]
fn poller_without_devices_is_refused() {
    assert_eq!(Poller::new(Vec::new()).err(), Some(ExportError::Config));
}

#[test]
fn missing_device_list_stops_before_polling() {
    assert_eq!(device_list(None).and_then(Poller::new).err(), Some(ExportError::Config));
    assert_eq!(device_list(Some("")).and_then(Poller::new).err(), Some(ExportError::Config));
}

#[test]
fn one_device_one_round() {
    let mut poller = device_list(Some("10.0.0.5")).and_then(Poller::new).unwrap();
    let mut registry = Registry::new();
    assert_eq!(round(&mut poller, &mut registry), devices(&["10.0.0.5"]));
    assert_eq!(registry.value(Metric::TotalVolumeSize, "Study"), Some(5000000000));
    assert_eq!(registry.value(Metric::FreeVolumeSize, "Study"), Some(2000000000));
    assert_eq!(registry.value(Metric::UsedVolumeSize, "Study"), Some(3000000000));
    let text = registry.exposition();
    assert!(text.contains("nasne_total_volume_size{name=\"Study\"} 5000000000\n"));
    assert!(text.contains("nasne_free_volume_size{name=\"Study\"} 2000000000\n"));
    assert!(text.contains("nasne_used_volume_size{name=\"Study\"} 3000000000\n"));
    assert_eq!(
        text,
        "# TYPE nasne_total_volume_size gauge\n\
         nasne_total_volume_size{name=\"Study\"} 5000000000\n\
         \n\
         # TYPE nasne_free_volume_size gauge\n\
         nasne_free_volume_size{name=\"Study\"} 2000000000\n\
         \n\
         # TYPE nasne_used_volume_size gauge\n\
         nasne_used_volume_size{name=\"Study\"} 3000000000\n\
         \n"
    );
}

#[test]
fn refusing_device_does_not_stop_the_round() {
    let mut poller = Poller::new(devices(&["10.0.0.9", "10.0.0.5", "10.0.0.8"])).unwrap();
    let mut registry = Registry::new();
    assert_eq!(
        round(&mut poller, &mut registry),
        devices(&["10.0.0.9", "10.0.0.5", "10.0.0.8"])
    );
    assert_eq!(registry.len(), 3);
    assert_eq!(registry.value(Metric::TotalVolumeSize, "Study"), Some(5000000000));
}

#[test]
fn failure_moves_on_to_the_next_device() {
    let mut poller = Poller::new(devices(&["a", "b"])).unwrap();
    let mut registry = Registry::new();
    assert_eq!(poller.action(), Action::Query { address: "a".to_string() });
    assert_eq!(
        poller.advance(Event::Probed(Err(ExportError::Transport)), &mut registry),
        Action::Query { address: "b".to_string() }
    );
    assert_eq!(
        poller.advance(Event::Probed(Err(ExportError::Decode)), &mut registry),
        Action::Sleep { seconds: 10 }
    );
    assert_eq!(registry.len(), 0);
}

#[test]
fn partial_reading_is_not_published() {
    let mut poller = Poller::new(devices(&["10.0.0.7"])).unwrap();
    let mut registry = Registry::new();
    assert_eq!(round(&mut poller, &mut registry), devices(&["10.0.0.7"]));
    assert_eq!(registry.len(), 0);
    assert_eq!(registry.exposition(), "");
}

#[test]
fn next_round_starts_after_the_pause() {
    let mut poller = Poller::new(devices(&["10.0.0.5", "10.0.0.9"])).unwrap();
    let mut registry = Registry::new();
    round(&mut poller, &mut registry);
    assert_eq!(poller.action(), Action::Sleep { seconds: 10 });
    assert_eq!(
        poller.advance(Event::Woke, &mut registry),
        Action::Query { address: "10.0.0.5".to_string() }
    );
    assert_eq!(round(&mut poller, &mut registry), devices(&["10.0.0.5", "10.0.0.9"]));
    assert_eq!(registry.len(), 3);
}

#[test]
fn events_that_were_not_asked_for_change_nothing() {
    let mut poller = Poller::new(devices(&["10.0.0.5"])).unwrap();
    let mut registry = Registry::new();
    assert_eq!(
        poller.advance(Event::Woke, &mut registry),
        Action::Query { address: "10.0.0.5".to_string() }
    );
    round(&mut poller, &mut registry);
    let text = registry.exposition();
    assert_eq!(
        poller.advance(Event::Probed(query("10.0.0.5")), &mut registry),
        Action::Sleep { seconds: 10 }
    );
    assert_eq!(
        poller.advance(Event::Probed(Err(ExportError::Transport)), &mut registry),
        Action::Sleep { seconds: 10 }
    );
    assert_eq!(registry.exposition(), text);
}

#[test]
fn last_values_stay_when_a_device_stops_answering() {
    let mut poller = Poller::new(devices(&["x"])).unwrap();
    let mut registry = Registry::new();
    let reading = query("10.0.0.5").unwrap();
    poller.advance(Event::Probed(Ok(reading)), &mut registry);
    poller.advance(Event::Woke, &mut registry);
    poller.advance(Event::Probed(Err(ExportError::Transport)), &mut registry);
    assert_eq!(registry.value(Metric::UsedVolumeSize, "Study"), Some(3000000000));
}
