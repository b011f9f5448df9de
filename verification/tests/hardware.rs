//! Tests of the privacy-safe hardware descriptors.

use indigauge::{
    bucket_cores, bucket_ram_gb, coarsen_cpu_name, extract_generation, extract_ryzen_gen,
    generation_label,
};

#[test]
fn buckets_cores_and_ram() {
    assert_eq!(bucket_cores(1), "1-2");
    assert_eq!(bucket_ram_gb(16), "12-16");
}

#[test]
fn coarsens_cpu_names() {
    assert_eq!(
        coarsen_cpu_name("11th Gen Intel Core i7"),
        Some("Intel i7 11th Gen".to_string())
    );
    assert_eq!(
        coarsen_cpu_name("AMD Ryzen 7 5800X"),
        Some("AMD Ryzen 5000 Series".to_string())
    );
}

#[test]
fn bucket_boundaries() {
    assert_eq!(bucket_cores(0), "1-2");
    assert_eq!(bucket_cores(2), "1-2");
    assert_eq!(bucket_cores(3), "3-4");
    assert_eq!(bucket_cores(5), "6-8");
    assert_eq!(bucket_cores(9), ">8");
    assert_eq!(bucket_ram_gb(4), "<=4");
    assert_eq!(bucket_ram_gb(8), "6-8");
    assert_eq!(bucket_ram_gb(17), ">16");
}

#[test]
fn coarsens_whole_families() {
    assert_eq!(coarsen_cpu_name("Apple M2 Pro"), Some("Apple M2".to_string()));
    assert_eq!(
        coarsen_cpu_name("Intel(R) Xeon(R) CPU E5-2678 v3"),
        Some("Intel Xeon".to_string())
    );
    assert_eq!(
        coarsen_cpu_name("AMD Ryzen Threadripper 3990X"),
        Some("AMD Ryzen Threadripper".to_string())
    );
    assert_eq!(coarsen_cpu_name("ARM Cortex-A76"), Some("ARM (Generic)".to_string()));
    assert_eq!(coarsen_cpu_name("Snapdragon 8 Gen 2"), None);
    assert_eq!(
        coarsen_cpu_name("Intel Core 2 Duo"),
        Some("Intel Core (Other)".to_string())
    );
    assert_eq!(coarsen_cpu_name("Intel something"), Some("Intel (Other)".to_string()));
    assert_eq!(coarsen_cpu_name("AMD EPYC 7763"), Some("AMD EPYC".to_string()));
}

#[test]
fn extracts_generations() {
    assert_eq!(extract_generation("11th gen intel core i7-11850h @ 2.50ghz"), Some(11));
    assert_eq!(extract_generation("intel core i7-9750h"), Some(9));
    assert_eq!(extract_generation("intel core i5"), None);
    // an absurdly long generation number does not fit a byte
    assert_eq!(extract_generation("999th gen intel core i5"), None);
}

#[test]
fn extracts_ryzen_generations() {
    assert_eq!(
        extract_ryzen_gen("amd ryzen 7 5800x3d 8-core processor"),
        Some("5000".to_string())
    );
    assert_eq!(extract_ryzen_gen("amd ryzen"), None);
    assert_eq!(extract_ryzen_gen("amd ryzen 7"), None);
}

#[test]
fn builds_generation_labels() {
    assert_eq!(
        generation_label("Intel i7", "11th gen intel core i7"),
        "Intel i7 11th Gen"
    );
    assert_eq!(generation_label("Intel i5", "intel core i5"), "Intel i5");
}
