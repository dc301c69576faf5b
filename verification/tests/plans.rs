use gstreamer_iced::pipeline::{
    frame_sink_plan, pipewire_pipeline_plan, pipewire_record_pipeline_plan, u32_decimal,
    url_pipeline_plan, ElementPlan, PropertyValue,
};
use gstreamer_iced::{GstreamerIcedBase, GstreamerIcedPipewire};

fn factory_names(elements: &[ElementPlan]) -> Vec<&str> {
    elements.iter().map(|e| e.factory.as_str()).collect()
}

fn text_property<'a>(element: &'a ElementPlan, name: &str) -> &'a str {
    let property = element
        .properties
        .iter()
        .find(|p| p.name == name)
        .expect("property is in the plan");
    match &property.value {
        PropertyValue::Text(s) => s.as_str(),
        PropertyValue::Flag(_) => panic!("expected a text property"),
    }
}

fn flag_property(element: &ElementPlan, name: &str) -> bool {
    let property = element
        .properties
        .iter()
        .find(|p| p.name == name)
        .expect("property is in the plan");
    match &property.value {
        PropertyValue::Flag(b) => *b,
        PropertyValue::Text(_) => panic!("expected a flag property"),
    }
}

#[test]
fn decimal_rendering() {
    assert_eq!(u32_decimal(0), "0");
    assert_eq!(u32_decimal(7), "7");
    assert_eq!(u32_decimal(10), "10");
    assert_eq!(u32_decimal(107), "107");
    assert_eq!(u32_decimal(50000), "50000");
    assert_eq!(u32_decimal(u32::MAX), "4294967295");
}

#[test]
fn frame_sink_chain_is_convert_scale_appsink() {
    let sink = frame_sink_plan();
    assert_eq!(factory_names(&sink.elements), vec!["videoconvert", "videoscale", "appsink"]);
    assert_eq!(sink.elements[0].name, None);
    assert_eq!(sink.elements[1].name, None);
    assert_eq!(sink.elements[2].name.as_deref(), Some("app_sink"));
    assert_eq!(sink.caps.format, "RGBA");
    assert_eq!(sink.caps.par_num, 1);
    assert_eq!(sink.caps.par_den, 1);
}

#[test]
fn url_plan_wraps_a_playbin() {
    let plan = url_pipeline_plan("http://host/video.mp4");
    assert_eq!(plan.playbin.factory, "playbin");
    assert_eq!(plan.playbin.name, None);
    assert_eq!(plan.playbin.properties.len(), 1);
    assert_eq!(text_property(&plan.playbin, "uri"), "http://host/video.mp4");
    assert_eq!(
        factory_names(&plan.video_sink.elements),
        vec!["videoconvert", "videoscale", "appsink"]
    );
}

#[test]
fn new_url_hands_out_the_same_plan() {
    let (_player, plan) = GstreamerIcedBase::new_url("file:///tmp/video.webm", false);
    assert_eq!(text_property(&plan.playbin, "uri"), "file:///tmp/video.webm");
    assert_eq!(plan.video_sink.caps.format, "RGBA");
}

#[test]
fn pipewire_plan_names_the_stream_node() {
    let plan = pipewire_pipeline_plan(107);
    assert_eq!(plan.source.factory, "pipewiresrc");
    assert_eq!(plan.source.properties.len(), 3);
    assert_eq!(text_property(&plan.source, "path"), "107");
    assert!(flag_property(&plan.source, "do-timestamp"));
    assert!(flag_property(&plan.source, "resend-last"));
    assert!(plan.record.is_none());
    assert_eq!(
        factory_names(&plan.video_sink.elements),
        vec!["videoconvert", "videoscale", "appsink"]
    );
}

#[test]
fn new_pipewire_hands_out_the_same_plan() {
    let (_player, plan) = GstreamerIcedPipewire::new_pipewire(9);
    assert_eq!(text_property(&plan.source, "path"), "9");
    assert!(plan.record.is_none());
}

#[test]
fn record_plan_adds_the_tee_and_file_branch() {
    let plan = pipewire_record_pipeline_plan(3, "/tmp/capture.mp4");
    assert_eq!(text_property(&plan.source, "path"), "3");
    let record = plan.record.as_ref().expect("a record branch is planned");
    assert_eq!(record.tee.factory, "tee");
    assert_eq!(record.tee.name.as_deref(), Some("iced_tee"));
    assert_eq!(record.video_queue.factory, "queue");
    assert_eq!(record.video_queue.name.as_deref(), Some("video_queue"));
    assert_eq!(record.file_queue.factory, "queue");
    assert_eq!(record.file_queue.name.as_deref(), Some("file_queue"));
    assert_eq!(factory_names(&record.chain), vec!["wavescope", "videoconvert", "filesink"]);
    assert_eq!(record.chain[1].name.as_deref(), Some("mp4mux"));
    assert_eq!(text_property(&record.chain[2], "location"), "/tmp/capture.mp4");
}

#[test]
fn new_pipewire_with_record_hands_out_the_same_plan() {
    let (player, plan) = GstreamerIcedPipewire::new_pipewire_with_record(3, "/tmp/out.mp4");
    assert!(player.is_playing());
    let record = plan.record.expect("a record branch is planned");
    assert_eq!(text_property(&record.chain[2], "location"), "/tmp/out.mp4");
}
