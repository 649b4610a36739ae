use tide::ui::{weather_from_body, weather_line, WeatherStatus};

#[test]
fn weather_summary_is_trimmed() {
    assert_eq!(
        weather_from_body("  Berlin: ☀️ +20°C ↗10km/h 40%\n"),
        WeatherStatus::Available("Berlin: ☀️ +20°C ↗10km/h 40%".to_string())
    );
}

#[test]
fn blank_or_unknown_answer_is_no_data() {
    let none = WeatherStatus::NoData("Weather data currently unavailable.");
    assert_eq!(weather_from_body(""), none);
    assert_eq!(weather_from_body(" \n\t"), none);
    assert_eq!(weather_from_body("Unknown location; please try again"), none);
    assert_eq!(weather_from_body("  location Unknown  "), none);
    assert_eq!(
        weather_from_body("unknown"),
        WeatherStatus::Available("unknown".to_string())
    );
}

#[test]
fn weather_line_says_what_is_known() {
    assert_eq!(
        weather_line(&WeatherStatus::Available("Oslo: ❄".to_string())),
        "Oslo: ❄"
    );
    assert_eq!(
        weather_line(&WeatherStatus::NoData("Weather data currently unavailable.")),
        "Weather data currently unavailable."
    );
    assert_eq!(
        weather_line(&WeatherStatus::Error("Request error: timed out".to_string())),
        "Unable to fetch weather data (Request error: timed out)."
    );
}

use tide::ui::{
    parse_battery, parse_disk_usage, parse_uptime, parse_version, BatteryStatus, DiskUsage,
    PowerState,
};

#[test]
fn disk_usage_comes_from_the_second_line() {
    let report = "Filesystem     Size   Used  Avail Capacity iused ifree %iused  Mounted on\n/dev/disk3s1  460Gi   10Gi  200Gi     5%  404k  2.1G    0%   /\n";
    assert_eq!(
        parse_disk_usage(report),
        Some(DiskUsage {
            total: "460Gi".to_string(),
            used: "10Gi".to_string(),
            percent: "5%".to_string(),
        })
    );
}

#[test]
fn short_disk_reports_say_nothing() {
    assert_eq!(parse_disk_usage(""), None);
    assert_eq!(parse_disk_usage("Filesystem Size Used Avail Capacity\n"), None);
    assert_eq!(parse_disk_usage("head\n/dev/disk 460Gi 10Gi 200Gi\n"), None);
    assert_eq!(
        parse_disk_usage("head\na b c d e"),
        Some(DiskUsage { total: "b".to_string(), used: "c".to_string(), percent: "e".to_string() })
    );
}

#[test]
fn battery_charge_is_read_up_to_the_percent_sign() {
    let report = "Now drawing from 'Battery Power'\n -InternalBattery-0 (id=1234)\t87%; discharging; 5:12 remaining present: true\n";
    // The first number of the line is the battery's own.
    assert_eq!(
        parse_battery(report),
        Some(BatteryStatus { percent: "0 (id=1234)\t87".to_string(), state: PowerState::Charging })
    );
    let report = "Now drawing from 'AC Power'\n Battery\t100%; charged; 0:00 remaining\n";
    assert_eq!(
        parse_battery(report),
        Some(BatteryStatus { percent: "100".to_string(), state: PowerState::Charged })
    );
    let report = "x\n level 42% on battery\n";
    assert_eq!(
        parse_battery(report),
        Some(BatteryStatus { percent: "42".to_string(), state: PowerState::Battery })
    );
}

#[test]
fn battery_reports_without_a_charge_say_nothing() {
    assert_eq!(parse_battery(""), None);
    assert_eq!(parse_battery("only one line 50%"), None);
    assert_eq!(parse_battery("x\nno number here%\n"), None);
    assert_eq!(parse_battery("x\n50 but no sign\n"), None);
    assert_eq!(parse_battery("x\n% before 50\n"), None);
}

#[test]
fn uptime_is_what_stands_before_the_first_comma() {
    assert_eq!(
        parse_uptime("14:02  up 3 days,  2:11, 4 users, load averages: 1.20 1.31 1.40\n"),
        Some("3 days".to_string())
    );
    assert_eq!(parse_uptime("up ,"), Some(String::new()));
    assert_eq!(parse_uptime("a, b up 1 min, x"), Some("1 min".to_string()));
}

#[test]
fn uptime_reports_without_marker_or_comma_say_nothing() {
    assert_eq!(parse_uptime(""), None);
    assert_eq!(parse_uptime("14:02 running 3 days, 2 users"), None);
    assert_eq!(parse_uptime("14:02 up 3 days"), None);
    assert_eq!(parse_uptime("a, b up"), None);
}

#[test]
fn version_is_trimmed() {
    assert_eq!(parse_version("14.5\n"), "14.5");
    assert_eq!(parse_version(""), "");
}
