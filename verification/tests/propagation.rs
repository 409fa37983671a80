use opentelemetry::global;
use opentelemetry::propagation::Extractor;
use opentelemetry::propagation::Injector;
use opentelemetry::propagation::TextMapPropagator;
use opentelemetry::trace::TraceContextExt;
use opentelemetry::trace::Tracer;
use opentelemetry::trace::TracerProvider as _;
use opentelemetry::Context;
use opentelemetry_sdk::propagation::TraceContextPropagator;
use opentelemetry_sdk::trace::SdkTracerProvider;
use tonic::metadata::MetadataMap;
use trace_carrier::carrier_get;
use trace_carrier::carrier_keys;
use trace_carrier::carrier_set;

struct TestInjector<'a>(&'a mut MetadataMap);

impl<'a> Injector for TestInjector<'a> {
    fn set(&mut self, key: &str, value: String) {
        carrier_set(self.0, key, &value)
    }
}

struct TestExtractor<'a>(&'a MetadataMap);

impl<'a> Extractor for TestExtractor<'a> {
    fn get(&self, key: &str) -> Option<&str> {
        carrier_get(self.0, key)
    }

    fn keys(&self) -> Vec<&str> {
        carrier_keys(self.0)
    }
}

fn snapshot(map: &MetadataMap) -> Vec<(String, String)> {
    let mut entries: Vec<(String, String)> = carrier_keys(map)
        .iter()
        .map(|k| {
            (
                k.to_string(),
                carrier_get(map, k).unwrap_or("").to_string(),
            )
        })
        .collect();
    entries.sort();
    entries
}

#[test]
fn inject() {
    global::set_text_map_propagator(TraceContextPropagator::new());
    let provider = SdkTracerProvider::builder().build();
    let tracer = provider.tracer("test");

    let span = tracer.start("client-span");

    let cx = Context::current_with_span(span);

    let mut request = tonic::Request::new(1);

    global::get_text_map_propagator(|propagator| {
        propagator.inject_context(&cx, &mut TestInjector(request.metadata_mut()))
    });
}

#[test]
fn extract() {
    global::set_text_map_propagator(TraceContextPropagator::new());
    let provider = SdkTracerProvider::builder().build();
    let tracer = provider.tracer("test");

    let request = tonic::Request::new(1);

    let cx = global::get_text_map_propagator(|propagator| {
        propagator.extract(&TestExtractor(request.metadata()))
    });

    let _span = tracer.start_with_context("server-span", &cx);
}

#[test]
fn round_trip_preserves_trace_identity() {
    let provider = SdkTracerProvider::builder().build();
    let tracer = provider.tracer("test");
    let span = tracer.start("client-span");
    let cx = Context::current_with_span(span);
    let (trace_id, span_id) = {
        let span_ref = cx.span();
        let span_context = span_ref.span_context();
        (span_context.trace_id(), span_context.span_id())
    };

    let propagator = TraceContextPropagator::new();
    let mut map = MetadataMap::new();
    propagator.inject_context(&cx, &mut TestInjector(&mut map));

    let extracted = propagator.extract(&TestExtractor(&map));
    let span_ref = extracted.span();
    let span_context = span_ref.span_context();
    assert_eq!(span_context.trace_id(), trace_id);
    assert_eq!(span_context.span_id(), span_id);
}

#[test]
fn missing_headers_extract_default_context() {
    let propagator = TraceContextPropagator::new();
    let map = MetadataMap::new();
    let extracted = propagator.extract(&TestExtractor(&map));
    assert!(!extracted.span().span_context().is_valid());
}

#[test]
fn double_injection_leaves_identical_state() {
    let provider = SdkTracerProvider::builder().build();
    let tracer = provider.tracer("test");
    let span = tracer.start("client-span");
    let cx = Context::current_with_span(span);

    let propagator = TraceContextPropagator::new();
    let mut map = MetadataMap::new();
    propagator.inject_context(&cx, &mut TestInjector(&mut map));
    let once = snapshot(&map);
    propagator.inject_context(&cx, &mut TestInjector(&mut map));
    assert_eq!(snapshot(&map), once);
}
