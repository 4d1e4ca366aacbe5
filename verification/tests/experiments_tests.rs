use broccoli::experiments::{experiment1_script, num_nodes_script, scale_predicates_script};
use broccoli::text::append_decimal;

fn reference_experiment1() -> String {
    let mut script: String = String::new();

    let num_runs = 10;

    //SINGLE INITIAL STATE
    for seed in 0..num_runs {
        let name = "cp";

        script += &format!("echo \"exp1 {name} {seed} yes\" \n");
        script += &format!("./broccoli.exe --env {name} --depth 2 --num-iters 10000 --predicate-increment 0.1 0.1 0.1 0.1 --NeurIPS {seed} 1 --predicate-reasoning 1 > exp1_single_{name}_{seed}_yes.txt\n");

        script += &format!("echo \"exp1 {name} {seed} no\" \n");
        script += &format!("./broccoli.exe --env {name} --depth 2 --num-iters 10000 --predicate-increment 0.1 0.1 0.1 0.1 --NeurIPS {seed} 1 --predicate-reasoning 0 > exp1_single_{name}_{seed}_no.txt\n");
    }

    for seed in 0..num_runs {
        let name = "mc";

        script += &format!("echo \"exp1 {name} {seed} yes\" \n");
        script += &format!("./broccoli.exe --env {name} --depth 2 --num-iters 10000 --predicate-increment 0.05 0.005 --NeurIPS {seed} 1 --predicate-reasoning 1 > exp1_single_{name}_{seed}_yes.txt\n");

        script += &format!("echo \"exp1 {name} {seed} no\" \n");
        script += &format!("./broccoli.exe --env {name} --depth 2 --num-iters 10000 --predicate-increment 0.05 0.005 --NeurIPS {seed} 1 --predicate-reasoning 0 > exp1_single_{name}_{seed}_no.txt\n");
    }

    for seed in 0..num_runs {
        let name = "pen";

        script += &format!("echo \"exp1 {name} {seed} yes\" \n");
        script += &format!("./broccoli.exe --env {name} --depth 2 --num-iters 10000 --predicate-increment 0.2 0.2 --NeurIPS {seed} 1 --predicate-reasoning 1 > exp1_single_{name}_{seed}_yes.txt\n");

        script += &format!("echo \"exp1 {name} {seed} no\" \n");
        script += &format!("./broccoli.exe --env {name} --depth 2 --num-iters 10000 --predicate-increment 0.2 0.2 --NeurIPS {seed} 1 --predicate-reasoning 0 > exp1_single_{name}_{seed}_no.txt\n");
    }

    //MULTIPLE INITIAL STATES
    for seed in 0..num_runs {
        let name = "cp";

        script += &format!("echo \"exp1 {name} {seed} yes\" \n");
        script += &format!("./broccoli.exe --env {name} --depth 2 --num-iters 10000 --predicate-increment 0.1 0.1 0.1 0.1 --NeurIPS {seed} 100 --predicate-reasoning 1 > exp1_multiple_{name}_{seed}_yes.txt\n");

        script += &format!("echo \"exp1 {name} {seed} no\" \n");
        script += &format!("./broccoli.exe --env {name} --depth 2 --num-iters 10000 --predicate-increment 0.1 0.1 0.1 0.1 --NeurIPS {seed} 100 --predicate-reasoning 0 > exp1_multiple_{name}_{seed}_no.txt\n");
    }

    for seed in 0..num_runs {
        let name = "mc";

        script += &format!("echo \"exp1 {name} {seed} yes\" \n");
        script += &format!("./broccoli.exe --env {name} --depth 2 --num-iters 10000 --predicate-increment 0.05 0.005 --NeurIPS {seed} 100 --predicate-reasoning 1 > exp1_multiple_{name}_{seed}_yes.txt\n");

        script += &format!("echo \"exp1 {name} {seed} no\" \n");
        script += &format!("./broccoli.exe --env {name} --depth 2 --num-iters 10000 --predicate-increment 0.05 0.005 --NeurIPS {seed} 100 --predicate-reasoning 0 > exp1_multiple_{name}_{seed}_no.txt\n");
    }

    for seed in 0..num_runs {
        let name = "pen";

        script += &format!("echo \"exp1 {name} {seed} yes\" \n");
        script += &format!("./broccoli.exe --env {name} --depth 2 --num-iters 10000 --predicate-increment 0.2 0.2 --NeurIPS {seed} 100 --predicate-reasoning 1 > exp1_multiple_{name}_{seed}_yes.txt\n");

        script += &format!("echo \"exp1 {name} {seed} no\" \n");
        script += &format!("./broccoli.exe --env {name} --depth 2 --num-iters 10000 --predicate-increment 0.2 0.2 --NeurIPS {seed} 100 --predicate-reasoning 0 > exp1_multiple_{name}_{seed}_no.txt\n");
    }

    
    script
}

fn reference_scale_predicates() -> String {
    let mut script: String = String::new();

    let num_runs = 10;

    //SINGLE INITIAL STATE

    for depth in 2..=3 {
        for seed in 0..num_runs {
            let name = "mc";

            script += &format!("echo \"exp_pred depth {depth} {name} {seed} 5\" \n");
            script += &format!("./broccoli.exe --env {name} --depth {depth} --num-iters 10000 --predicate-increment 0.36 0.028 --NeurIPS {seed} 1 > expPred_5_single_{name}_{seed}_d={depth}.txt\n");

            script += &format!("echo \"exp_pred depth {depth} {name} {seed} 10\" \n");
            script += &format!("./broccoli.exe --env {name} --depth {depth} --num-iters 10000 --predicate-increment 0.18 0.014 --NeurIPS {seed} 1 > expPred_10_single_{name}_{seed}_d={depth}.txt\n");

            script += &format!("echo \"exp_pred depth {depth} {name} {seed} 15\" \n");
            script += &format!("./broccoli.exe --env {name} --depth {depth} --num-iters 10000 --predicate-increment 0.12 0.01 --NeurIPS {seed} 1 > expPred_15_single_{name}_{seed}_d={depth}.txt\n");

            script += &format!("echo \"exp_pred depth {depth} {name} {seed} 20\" \n");
            script += &format!("./broccoli.exe --env {name} --depth {depth} --num-iters 10000 --predicate-increment 0.09 0.007 --NeurIPS {seed} 1 > expPred_20_single_{name}_{seed}_d={depth}.txt\n");

            let name = "cp";

            script += &format!("echo \"exp_pred depth {depth} {name} {seed} 5\" \n");
            script += &format!("./broccoli.exe --env {name} --depth {depth} --num-iters 10000 --predicate-increment 0.96 0.4 0.16 0.4 --NeurIPS {seed} 1 > expPred_5_single_{name}_{seed}_d={depth}.txt\n");

            script += &format!("echo \"exp_pred depth {depth} {name} {seed} 10\" \n");
            script += &format!("./broccoli.exe --env {name} --depth {depth} --num-iters 10000 --predicate-increment 0.48 0.2 0.33 0.2 --NeurIPS {seed} 1 > expPred_10_single_{name}_{seed}_d={depth}.txt\n");

            script += &format!("echo \"exp_pred depth {depth} {name} {seed} 15\" \n");
            script += &format!("./broccoli.exe --env {name} --depth {depth} --num-iters 10000 --predicate-increment 0.32 0.13 0.08 0.13 --NeurIPS {seed} 1 > expPred_15_single_{name}_{seed}_d={depth}.txt\n");

            script += &format!("echo \"exp_pred depth {depth} {name} {seed} 20\" \n");
            script += &format!("./broccoli.exe --env {name} --depth {depth} --num-iters 10000 --predicate-increment 0.24 0.1 0.04 0.1 --NeurIPS {seed} 1 > expPred_20_single_{name}_{seed}_d={depth}.txt\n");

            let name = "pen";

            script += &format!("echo \"exp_pred depth {depth} {name} {seed} 5\" \n");
            script += &format!("./broccoli.exe --env {name} --depth {depth} --num-iters 10000 --predicate-increment 0.4 3.2 --NeurIPS {seed} 1 > expPred_5_single_{name}_{seed}_d={depth}.txt\n");

            script += &format!("echo \"exp_pred depth {depth} {name} {seed} 10\" \n");
            script += &format!("./broccoli.exe --env {name} --depth {depth} --num-iters 10000 --predicate-increment 0.2 1.6 --NeurIPS {seed} 1 > expPred_10_single_{name}_{seed}_d={depth}.txt\n");

            script += &format!("echo \"exp_pred depth {depth} {name} {seed} 15\" \n");
            script += &format!("./broccoli.exe --env {name} --depth {depth} --num-iters 10000 --predicate-increment 0.13 1.0 --NeurIPS {seed} 1 > expPred_15_single_{name}_{seed}_d={depth}.txt\n");

            script += &format!("echo \"exp_pred depth {depth} {name} {seed} 20\" \n");
            script += &format!("./broccoli.exe --env {name} --depth {depth} --num-iters 10000 --predicate-increment 0.1 0.8 --NeurIPS {seed} 1 > expPred_20_single_{name}_{seed}_d={depth}.txt\n");
        }

        //MULTIPLE INITIAL STATE

        for seed in 0..num_runs {
            let name = "mc";

            script += &format!("echo \"exp_pred multi depth {depth} {name} {seed} 5\" \n");
            script += &format!("./broccoli.exe --env {name} --depth {depth} --num-iters 10000 --predicate-increment 0.36 0.028 --NeurIPS {seed} 100 > expPred_5_multiple_{name}_{seed}_d={depth}.txt\n");

            script += &format!("echo \"exp_pred multi depth {depth} {name} {seed} 10\" \n");
            script += &format!("./broccoli.exe --env {name} --depth {depth} --num-iters 10000 --predicate-increment 0.18 0.014 --NeurIPS {seed} 100 > expPred_10_multiple_{name}_{seed}_d={depth}.txt\n");

            script += &format!("echo \"exp_pred multi depth {depth} {name} {seed} 15\" \n");
            script += &format!("./broccoli.exe --env {name} --depth {depth} --num-iters 10000 --predicate-increment 0.12 0.01 --NeurIPS {seed} 100 > expPred_15_multiple_{name}_{seed}_d={depth}.txt\n");

            script += &format!("echo \"exp_pred multi depth {depth} {name} {seed} 20\" \n");
            script += &format!("./broccoli.exe --env {name} --depth {depth} --num-iters 10000 --predicate-increment 0.09 0.007 --NeurIPS {seed} 100 > expPred_20_multiple_{name}_{seed}_d={depth}.txt\n");

            let name = "cp";

            script += &format!("echo \"exp_pred multi depth {depth} {name} {seed} 5\" \n");
            script += &format!("./broccoli.exe --env {name} --depth {depth} --num-iters 10000 --predicate-increment 0.96 0.4 0.16 0.4 --NeurIPS {seed} 100 > expPred_5_multiple_{name}_{seed}_d={depth}.txt\n");

            script += &format!("echo \"exp_pred multi depth {depth} {name} {seed} 10\" \n");
            script += &format!("./broccoli.exe --env {name} --depth {depth} --num-iters 10000 --predicate-increment 0.48 0.2 0.33 0.2 --NeurIPS {seed} 100 > expPred_10_multiple_{name}_{seed}_d={depth}.txt\n");

            script += &format!("echo \"exp_pred multi depth {depth} {name} {seed} 15\" \n");
            script += &format!("./broccoli.exe --env {name} --depth {depth} --num-iters 10000 --predicate-increment 0.32 0.13 0.08 0.13 --NeurIPS {seed} 100 > expPred_15_multiple_{name}_{seed}_d={depth}.txt\n");

            script += &format!("echo \"exp_pred multi depth {depth} {name} {seed} 20\" \n");
            script += &format!("./broccoli.exe --env {name} --depth {depth} --num-iters 10000 --predicate-increment 0.24 0.1 0.04 0.1 --NeurIPS {seed} 100 > expPred_20_multiple_{name}_{seed}_d={depth}.txt\n");

            let name = "pen";

            script += &format!("echo \"exp_pred multi depth {depth} {name} {seed} 5\" \n");
            script += &format!("./broccoli.exe --env {name} --depth {depth} --num-iters 10000 --predicate-increment 0.4 3.2 --NeurIPS {seed} 100 > expPred_5_multiple_{name}_{seed}_d={depth}.txt\n");

            script += &format!("echo \"exp_pred multi depth {depth} {name} {seed} 10\" \n");
            script += &format!("./broccoli.exe --env {name} --depth {depth} --num-iters 10000 --predicate-increment 0.2 1.6 --NeurIPS {seed} 100 > expPred_10_multiple_{name}_{seed}_d={depth}.txt\n");

            script += &format!("echo \"exp_pred multi depth {depth} {name} {seed} 15\" \n");
            script += &format!("./broccoli.exe --env {name} --depth {depth} --num-iters 10000 --predicate-increment 0.13 1.0 --NeurIPS {seed} 100 > expPred_15_multiple_{name}_{seed}_d={depth}.txt\n");

            script += &format!("echo \"exp_pred multi depth {depth} {name} {seed} 20\" \n");
            script += &format!("./broccoli.exe --env {name} --depth {depth} --num-iters 10000 --predicate-increment 0.1 0.8 --NeurIPS {seed} 100 > expPred_20_multiple_{name}_{seed}_d={depth}.txt\n");
        }
    }

    
    script
}

fn reference_num_nodes() -> String {
    let mut script: String = String::new();

    let num_runs = 10;



    for seed in 0..num_runs {
        for num_nodes in 3..=7 {
            let name = "mc";

            script += &format!("echo \"mc {num_nodes} {name} {seed} 10\" \n");
            script += &format!("./broccoli2.exe --env {name} --depth 3 --num-nodes {num_nodes} --num-iters 10000 --predicate-increment 0.18 0.014 --NeurIPS {seed} 100 > expSize_10_multiple_{name}_{seed}_n={num_nodes}.txt\n");

            let name = "cp";

            script += &format!("echo \"cp {num_nodes} {name} {seed} 5\" \n");
            script += &format!("./broccoli2.exe --env {name} --depth 3 --num-nodes {num_nodes} --num-iters 10000 --predicate-increment 0.96 0.4 0.16 0.4 --NeurIPS {seed} 100 > expSize_5_multiple_{name}_{seed}_n={num_nodes}.txt\n");

            let name = "pen";

            script += &format!("echo \"pen {num_nodes} {name} {seed} 10\" \n");
            script += &format!("./broccoli2.exe --env {name} --depth 3 --num-nodes {num_nodes} --num-iters 10000 --predicate-increment 0.2 1.6 --NeurIPS {seed} 100 > expSize_10_multiple_{name}_{seed}_n={num_nodes}.txt\n");
        }
    }

    
    script
}

#[test]
fn experiment1_matches_reference() {
    let s = experiment1_script();
    assert_eq!(s, reference_experiment1());
    assert_eq!(s.lines().count(), 240);
    assert!(s.starts_with("echo \"exp1 cp 0 yes\" \n./broccoli.exe --env cp --depth 2 --num-iters 10000 --predicate-increment 0.1 0.1 0.1 0.1 --NeurIPS 0 1 --predicate-reasoning 1 > exp1_single_cp_0_yes.txt\n"));
    assert!(s.ends_with("--NeurIPS 9 100 --predicate-reasoning 0 > exp1_multiple_pen_9_no.txt\n"));
}

#[test]
fn scale_predicates_matches_reference() {
    let s = scale_predicates_script();
    assert_eq!(s, reference_scale_predicates());
    assert_eq!(s.lines().count(), 960);
    assert!(s.starts_with("echo \"exp_pred depth 2 mc 0 5\" \n./broccoli.exe --env mc --depth 2 --num-iters 10000 --predicate-increment 0.36 0.028 --NeurIPS 0 1 > expPred_5_single_mc_0_d=2.txt\n"));
}

#[test]
fn num_nodes_matches_reference() {
    let s = num_nodes_script();
    assert_eq!(s, reference_num_nodes());
    assert_eq!(s.lines().count(), 300);
    assert!(s.starts_with("echo \"mc 3 mc 0 10\" \n./broccoli2.exe --env mc --depth 3 --num-nodes 3 --num-iters 10000 --predicate-increment 0.18 0.014 --NeurIPS 0 100 > expSize_10_multiple_mc_0_n=3.txt\n"));
}

#[test]
fn decimal_rendering() {
    for n in [0u32, 7, 10, 99, 407, 1000, 65536, u32::MAX] {
        let mut s = String::from("x");
        append_decimal(&mut s, n);
        assert_eq!(s, format!("x{}", n));
    }
}
