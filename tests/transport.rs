use thermosmart::{status_from_response, RawThermostatData, Thermostat, ThermostatError};
use tokio::net::TcpListener;

fn runtime() -> tokio::runtime::Runtime {
    tokio::runtime::Builder::new_current_thread().enable_all().build().unwrap()
}

async fn fetch(thermostat: &Thermostat) -> Result<RawThermostatData, ThermostatError> {
    let url = thermostat.status_url().unwrap();
    let response = match thermostat.client().get(url).send().await {
        Ok(r) => r.bytes().await.map(|b| b.to_vec()),
        Err(e) => Err(e),
    };
    status_from_response(response)
}

#[test]
fn transport_failure_is_network_error() {
    let rt = runtime();
    rt.block_on(async {
        // a port that was just released: nothing listens there
        let listener = TcpListener::bind("127.0.0.1:0").await.unwrap();
        let port = listener.local_addr().unwrap().port();
        drop(listener);
        let thermostat = Thermostat::create(&format!("127.0.0.1:{port}")).unwrap();
        assert!(matches!(fetch(&thermostat).await, Err(ThermostatError::NetworkError(_))));
    });
}

