use wgpu_demos::draw::DrawCommand;
use wgpu_demos::orbit::{
    OrbitDemo, OrbitDemoUniform, OrbitInput, OrbitParams, A_OFFSET, B_OFFSET, COLOR_OFFSET,
    LINE_COLOR_OFFSET, PADDING_OFFSET, SHOW_LINE_OFFSET, TIMESTEP_OFFSET, TIME_OFFSET,
    UNIFORM_SIZE, UNIFORM_WORDS,
};
use wgpu_demos::pipeline::{
    BufferUsage, FrontFace, PolygonMode, StepMode, Topology, VertexFormat,
};
use wgpu_demos::scalar::{Rgb, Scalar};

fn scalar(value: f32) -> Scalar {
    Scalar::from_bits(value.to_bits())
}

fn rgb(r: f32, g: f32, b: f32) -> Rgb {
    Rgb { r: scalar(r), g: scalar(g), b: scalar(b) }
}

fn radians(tenths: u64) -> f32 {
    (tenths as f32).to_radians() / 10.0
}

fn native(words: &[u32]) -> Vec<u8> {
    let mut bytes = Vec::new();
    for w in words {
        bytes.extend_from_slice(&w.to_ne_bytes());
    }
    bytes
}

fn word_at(bytes: &[u8], offset: u64) -> u32 {
    let at = offset as usize;
    u32::from_ne_bytes([bytes[at], bytes[at + 1], bytes[at + 2], bytes[at + 3]])
}

#[test]
fn starts_with_the_default_parameters() {
    let demo = OrbitDemo::new();
    let expected = OrbitParams {
        a: 10,
        b: 10,
        timestep: 15,
        time: 0,
        color: rgb(1.0, 1.0, 1.0),
        show_line: false,
        line_color: rgb(0.5, 0.5, 0.5),
    };
    assert_eq!(demo.params(), expected);
    assert_eq!(OrbitDemoUniform::new().params(), expected);
    assert_eq!(demo.name(), "Orbit");
}

#[test]
fn controls_start_at_the_parameters() {
    let demo = OrbitDemo::new();
    let input = demo.input();
    assert_eq!(
        input,
        OrbitInput {
            a: 10,
            b: 10,
            timestep: 15,
            color: rgb(1.0, 1.0, 1.0),
            show_line: false,
            line_color: rgb(0.5, 0.5, 0.5),
        }
    );
}

#[test]
fn one_idle_frame_advances_time_by_the_speed() {
    let mut demo = OrbitDemo::new();
    let before = demo.params();
    let input = demo.input();
    demo.ui(&input);
    let after = demo.params();
    assert_eq!(after.time, 15);
    assert_eq!(after, OrbitParams { time: 15, ..before });
    assert_eq!(radians(after.time), 15.0f32.to_radians() / 10.0);
}

#[test]
fn hundred_frames_at_default_speed() {
    let mut demo = OrbitDemo::new();
    let mut accumulated = 0.0f32;
    for _ in 0..100 {
        let input = demo.input();
        demo.ui(&input);
        accumulated += f32::to_radians(15.0) / 10.0;
    }
    assert_eq!(demo.params().time, 1500);
    let expected = 100.0 * 15.0f32.to_radians() / 10.0;
    assert!((radians(demo.params().time) - expected).abs() < 1e-4);
    assert!((radians(demo.params().time) - accumulated).abs() < 1e-4);
}

#[test]
fn sliders_clamp_to_their_ranges() {
    let mut demo = OrbitDemo::new();
    let mut input = demo.input();
    input.a = 0;
    input.b = 51;
    input.timestep = 101;
    demo.ui(&input);
    let p = demo.params();
    assert_eq!((p.a, p.b, p.timestep), (1, 50, 100));
    assert_eq!(p.time, 100);

    input.a = u32::MAX;
    input.b = 0;
    input.timestep = u32::MAX;
    demo.ui(&input);
    let p = demo.params();
    assert_eq!((p.a, p.b, p.timestep), (50, 1, 100));
    assert_eq!(p.time, 200);
}

#[test]
fn values_inside_the_ranges_are_taken_as_they_are() {
    let mut demo = OrbitDemo::new();
    for (a, b, timestep) in [(1, 1, 0), (50, 50, 100), (25, 7, 33), (2, 49, 1)] {
        let mut input = demo.input();
        input.a = a;
        input.b = b;
        input.timestep = timestep;
        demo.ui(&input);
        let p = demo.params();
        assert_eq!((p.a, p.b, p.timestep), (a, b, timestep));
    }
}

#[test]
fn fields_stay_in_bounds_over_any_inputs() {
    let mut demo = OrbitDemo::new();
    let mut x: u32 = 12345;
    for _ in 0..500 {
        let mut input = demo.input();
        x = x.wrapping_mul(1664525).wrapping_add(1013904223);
        input.a = x >> 24;
        x = x.wrapping_mul(1664525).wrapping_add(1013904223);
        input.b = x >> 25;
        x = x.wrapping_mul(1664525).wrapping_add(1013904223);
        input.timestep = x >> 24;
        demo.ui(&input);
        let p = demo.params();
        assert!((1..=50).contains(&p.a));
        assert!((1..=50).contains(&p.b));
        assert!(p.timestep <= 100);
    }
}

#[test]
fn time_never_decreases_and_grows_with_positive_speed() {
    let mut demo = OrbitDemo::new();
    for speed in [0u32, 0, 1, 15, 0, 100, 250, 0, 3] {
        let before = demo.params().time;
        let mut input = demo.input();
        input.timestep = speed;
        demo.ui(&input);
        let after = demo.params().time;
        assert!(after >= before);
        if speed > 0 {
            assert!(after > before);
            assert_eq!(after, before + u64::from(speed.min(100)));
        } else {
            assert_eq!(after, before);
        }
    }
}

#[test]
fn time_advances_by_the_edited_speed() {
    let mut demo = OrbitDemo::new();
    let mut input = demo.input();
    input.timestep = 40;
    demo.ui(&input);
    assert_eq!(demo.params().time, 40);
    assert_eq!(demo.params().timestep, 40);
}

#[test]
fn dot_color_is_taken_over() {
    let mut demo = OrbitDemo::new();
    let mut input = demo.input();
    input.color = rgb(1.0, 0.0, 0.0);
    demo.ui(&input);
    assert_eq!(demo.params().color, rgb(1.0, 0.0, 0.0));
    assert_eq!(demo.params().line_color, rgb(0.5, 0.5, 0.5));
}

#[test]
fn line_color_changes_only_while_the_line_is_shown() {
    let mut demo = OrbitDemo::new();
    let mut input = demo.input();
    input.line_color = rgb(0.0, 1.0, 0.0);
    demo.ui(&input);
    assert!(!demo.params().show_line);
    assert_eq!(demo.params().line_color, rgb(0.5, 0.5, 0.5));

    let mut input = demo.input();
    input.show_line = true;
    input.line_color = rgb(0.0, 1.0, 0.0);
    demo.ui(&input);
    assert!(demo.params().show_line);
    assert_eq!(demo.params().line_color, rgb(0.0, 1.0, 0.0));

    let mut input = demo.input();
    input.show_line = false;
    input.line_color = rgb(0.0, 0.0, 1.0);
    demo.ui(&input);
    assert!(!demo.params().show_line);
    assert_eq!(demo.params().line_color, rgb(0.0, 1.0, 0.0));
}

#[test]
fn uniform_words_follow_the_layout() {
    let mut uniform = OrbitDemoUniform::new();
    let input = OrbitInput {
        a: 3,
        b: 4,
        timestep: 20,
        color: rgb(1.0, 0.25, 0.0),
        show_line: true,
        line_color: rgb(0.5, 0.75, 1.0),
    };
    uniform.update(&input);
    let time = scalar(radians(uniform.params().time));
    let words = uniform.words(time);
    assert_eq!(
        words,
        vec![
            3,
            4,
            20,
            radians(20).to_bits(),
            1.0f32.to_bits(),
            0.25f32.to_bits(),
            0.0f32.to_bits(),
            1,
            0.5f32.to_bits(),
            0.75f32.to_bits(),
            1.0f32.to_bits(),
            0,
        ]
    );
    assert_eq!(words.len(), UNIFORM_WORDS);
}

#[test]
fn uniform_bytes_are_the_words_in_memory() {
    let mut uniform = OrbitDemoUniform::new();
    let input = OrbitInput {
        a: 0x0102_0304,
        b: 7,
        timestep: 99,
        color: rgb(0.1, 0.2, 0.3),
        show_line: true,
        line_color: rgb(0.4, 0.6, 0.8),
    };
    uniform.update(&input);
    let time = scalar(1.25);
    let bytes = uniform.bytes(time);
    assert_eq!(bytes.len() as u64, UNIFORM_SIZE);
    assert_eq!(bytes, native(&uniform.words(time)));
    assert_eq!(word_at(&bytes, A_OFFSET), 50);
    assert_eq!(word_at(&bytes, B_OFFSET), 7);
    assert_eq!(word_at(&bytes, TIMESTEP_OFFSET), 99);
    assert_eq!(f32::from_bits(word_at(&bytes, TIME_OFFSET)), 1.25);
    assert_eq!(f32::from_bits(word_at(&bytes, COLOR_OFFSET)), 0.1);
    assert_eq!(f32::from_bits(word_at(&bytes, COLOR_OFFSET + 4)), 0.2);
    assert_eq!(f32::from_bits(word_at(&bytes, COLOR_OFFSET + 8)), 0.3);
    assert_eq!(word_at(&bytes, SHOW_LINE_OFFSET), 1);
    assert_eq!(f32::from_bits(word_at(&bytes, LINE_COLOR_OFFSET)), 0.4);
    assert_eq!(f32::from_bits(word_at(&bytes, LINE_COLOR_OFFSET + 4)), 0.6);
    assert_eq!(f32::from_bits(word_at(&bytes, LINE_COLOR_OFFSET + 8)), 0.8);
    assert_eq!(word_at(&bytes, PADDING_OFFSET), 0);
}

#[test]
fn written_color_reads_back_from_the_buffer() {
    let mut demo = OrbitDemo::new();
    let mut input = demo.input();
    input.color = rgb(1.0, 0.0, 0.0);
    input.timestep = 0;
    demo.ui(&input);
    assert_eq!(demo.params().time, 0);
    let commands = demo.render(scalar(0.0));
    let data = match &commands[0] {
        DrawCommand::WriteUniform { offset: 0, data } => data,
        other => panic!("unexpected first command {:?}", other),
    };
    assert_eq!(word_at(data, A_OFFSET), 10);
    assert_eq!(word_at(data, B_OFFSET), 10);
    assert_eq!(f32::from_bits(word_at(data, TIME_OFFSET)), 0.0);
    assert_eq!(f32::from_bits(word_at(data, COLOR_OFFSET)), 1.0);
    assert_eq!(f32::from_bits(word_at(data, COLOR_OFFSET + 4)), 0.0);
    assert_eq!(f32::from_bits(word_at(data, COLOR_OFFSET + 8)), 0.0);
}

#[test]
fn render_uploads_then_binds_then_draws_six_vertices() {
    let mut demo = OrbitDemo::new();
    let input = demo.input();
    demo.ui(&input);
    let time = scalar(radians(demo.params().time));
    let commands = demo.render(time);
    let expected = vec![
        DrawCommand::WriteUniform {
            offset: 0,
            data: native(&[
                10,
                10,
                15,
                radians(15).to_bits(),
                1.0f32.to_bits(),
                1.0f32.to_bits(),
                1.0f32.to_bits(),
                0,
                0.5f32.to_bits(),
                0.5f32.to_bits(),
                0.5f32.to_bits(),
                0,
            ]),
        },
        DrawCommand::SetPipeline,
        DrawCommand::SetBindGroup { index: 0 },
        DrawCommand::SetVertexBuffer { slot: 0 },
        DrawCommand::Draw { first_vertex: 0, vertex_count: 6, first_instance: 0, instance_count: 1 },
    ];
    assert_eq!(commands, expected);
}

#[test]
fn render_does_not_change_the_effect() {
    let demo = OrbitDemo::new();
    let before = demo.params();
    let _ = demo.render(scalar(0.0));
    let _ = demo.render(scalar(2.0));
    assert_eq!(demo.params(), before);
}

#[test]
fn setup_describes_buffers_and_pipeline() {
    let setup = OrbitDemo::setup();

    let quad: [f32; 12] = [-1.0, -1.0, -1.0, 1.0, 1.0, 1.0, 1.0, 1.0, 1.0, -1.0, -1.0, -1.0];
    let quad_bytes: &[u8] = bytemuck::cast_slice(&quad);
    assert_eq!(setup.vertex_buffer.contents, quad_bytes);
    assert_eq!(
        setup.vertex_buffer.usage,
        BufferUsage { vertex: true, uniform: false, copy_dst: false }
    );

    assert_eq!(setup.uniform_buffer.contents.len(), 48);
    assert_eq!(setup.uniform_buffer.contents, OrbitDemoUniform::new().bytes(scalar(0.0)));
    assert_eq!(
        setup.uniform_buffer.usage,
        BufferUsage { vertex: false, uniform: true, copy_dst: true }
    );

    let p = setup.pipeline;
    assert_eq!(p.vertex.array_stride, 8);
    assert_eq!(p.vertex.array_stride as usize, std::mem::size_of::<[f32; 2]>());
    assert_eq!(p.vertex.step_mode, StepMode::Vertex);
    assert_eq!(p.vertex.attribute.format, VertexFormat::Float32x2);
    assert_eq!(p.vertex.attribute.offset, 0);
    assert_eq!(p.vertex.attribute.shader_location, 0);
    assert_eq!((p.uniform.group, p.uniform.binding), (0, 0));
    assert!(p.uniform.visibility.vertex && p.uniform.visibility.fragment);
    assert!(p.uniform.visibility.compute);
    assert!(!p.uniform.has_dynamic_offset);
    assert_eq!(p.uniform.min_binding_size, None);
    assert_eq!((p.uniform.offset, p.uniform.size), (0, None));
    assert_eq!(p.primitive.topology, Topology::TriangleList);
    assert_eq!(p.primitive.front_face, FrontFace::Cw);
    assert_eq!(p.primitive.cull_mode, None);
    assert_eq!(p.primitive.polygon_mode, PolygonMode::Fill);
    assert_eq!(p.primitive.strip_index_format, None);
    assert!(!p.primitive.unclipped_depth && !p.primitive.conservative);
    assert!(!p.depth_stencil);
    assert_eq!(p.multisample.count, 1);
    assert_eq!(p.multisample.mask, !0);
    assert!(!p.multisample.alpha_to_coverage_enabled);
}
